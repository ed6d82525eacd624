use cntk::Axis;
use cntk::DeviceDescriptor;
use cntk::DoubleParameterSchedule;
use cntk::Function;
use cntk::Graph;
use cntk::Learner;
use cntk::ParameterInitializer;
use cntk::ReplacementMap;
use cntk::Shape;
use cntk::Trainer;
use cntk::Variable;
use cntk::learner::check_parameters;
use cntk::ops;
use cntk::shape::dims_suffix_matches;

#[test]
fn shapes_report_their_dimensions() {
    let s = Shape::new(vec![2, 3, 4]);
    assert_eq!(s.rank(), 3);
    assert_eq!(s.get(0), 2);
    assert_eq!(s.get(1), 3);
    assert_eq!(s.total_size(), 24);
    assert_eq!(s.to_vec(), vec![2, 3, 4]);
    assert_eq!(s.to_vec_reversed(), vec![4, 3, 2]);
}

#[test]
fn scalar_shape_is_rank_zero() {
    let s = Shape::scalar();
    assert_eq!(s.rank(), 0);
    assert_eq!(s.total_size(), 1);
    assert_eq!(s.to_vec(), Vec::<usize>::new());
}

#[test]
fn zero_dimension_empties_a_shape() {
    let s = Shape::new(vec![5, 0, 7]);
    assert_eq!(s.total_size(), 0);
}

#[test]
fn append_shape_concatenates() {
    let a = Shape::new(vec![2, 3]);
    let b = Shape::new(vec![4]);
    assert_eq!(a.append_shape(&b).to_vec(), vec![2, 3, 4]);
}

#[test]
fn suffix_check_compares_trailing_axes() {
    assert!(dims_suffix_matches(&vec![3, 4], &vec![2, 3, 4]));
    assert!(dims_suffix_matches(&vec![], &vec![2, 3]));
    assert!(!dims_suffix_matches(&vec![3, 4], &vec![4, 3]));
    assert!(!dims_suffix_matches(&vec![2, 3, 4], &vec![3, 4]));
}

#[test]
fn axes_carry_their_description() {
    assert!(matches!(Axis::all(), Axis::All));
    assert!(matches!(Axis::all_static(), Axis::AllStatic));
    assert!(matches!(Axis::default_batch_axis(), Axis::DefaultBatch));
    assert!(matches!(Axis::new(2), Axis::Static(2)));
    match Axis::named_dynamic("steps") {
        Axis::NamedDynamic(name) => assert_eq!(name, "steps"),
        _ => panic!("named axis lost its name"),
    }
}

#[test]
fn variables_report_their_attributes() {
    let mut g = Graph::new();
    let x = Variable::input_variable(&mut g, &Shape::new(vec![5]));
    assert_eq!(x.shape().to_vec(), vec![5]);
    assert_eq!(x.name(), "");
    assert!(!x.is_parameter());

    let named = Variable::input_variable_with_name(&mut g, &Shape::new(vec![2]), "features");
    assert_eq!(named.name(), "features");

    let w = Variable::parameter(
        &mut g,
        &Shape::new(vec![4, 5]),
        &ParameterInitializer::<f64>::glorot_uniform(),
        DeviceDescriptor::cpu(),
    );
    assert!(w.is_parameter());
    assert_eq!(w.shape().to_vec(), vec![4, 5]);

    let ph = Variable::placeholder(&mut g, &Shape::new(vec![3]));
    assert!(!ph.is_parameter());

    let c = Variable::constant_scalar(&mut g, 1.5f32);
    assert_eq!(c.shape().rank(), 0);
}

#[test]
fn function_from_variable_round_trips() {
    let mut g = Graph::new();
    let x = Variable::input_variable_with_name(&mut g, &Shape::new(vec![5]), "x");
    let f = Function::from_variable(&x);
    assert_eq!(f.num_inputs(), 1);
    assert_eq!(f.num_outputs(), 1);
    let back = f.to_variable().unwrap();
    assert_eq!(back.name(), "x");
    assert_eq!(back.shape().to_vec(), vec![5]);
}

#[test]
fn combine_bundles_outputs() {
    let mut g = Graph::new();
    let a = Variable::input_variable(&mut g, &Shape::new(vec![2]));
    let b = Variable::input_variable(&mut g, &Shape::new(vec![3]));
    let f = Function::combine(&vec![a, b]);
    assert_eq!(f.num_outputs(), 2);
    assert!(f.to_variable().is_err());
}

#[test]
fn elementwise_ops_keep_the_shape() {
    let mut g = Graph::new();
    let x = Variable::input_variable(&mut g, &Shape::new(vec![5]));
    let y = Variable::input_variable(&mut g, &Shape::new(vec![5]));
    let f = ops::plus(&mut g, &x, &y);
    assert_eq!(f.num_inputs(), 2);
    assert_eq!(f.num_outputs(), 1);
    assert_eq!(f.outputs()[0].shape().to_vec(), vec![5]);

    let s = ops::sigmoid(&mut g, &x);
    assert_eq!(s.outputs()[0].shape().to_vec(), vec![5]);
}

#[test]
fn elementwise_ops_broadcast() {
    let mut g = Graph::new();
    let x = Variable::input_variable(&mut g, &Shape::new(vec![3, 1]));
    let y = Variable::input_variable(&mut g, &Shape::new(vec![1, 4]));
    let f = ops::element_times(&mut g, &x, &y);
    assert_eq!(f.outputs()[0].shape().to_vec(), vec![3, 4]);

    let row = Variable::input_variable(&mut g, &Shape::new(vec![3]));
    let grid = Variable::input_variable(&mut g, &Shape::new(vec![3, 7]));
    let h = ops::plus(&mut g, &row, &grid);
    assert_eq!(h.outputs()[0].shape().to_vec(), vec![3, 7]);
}

#[test]
fn times_contracts_the_inner_axis() {
    let mut g = Graph::new();
    let w = Variable::input_variable(&mut g, &Shape::new(vec![2, 3]));
    let x = Variable::input_variable(&mut g, &Shape::new(vec![3]));
    let f = ops::times(&mut g, &w, &x);
    assert_eq!(f.outputs()[0].shape().to_vec(), vec![2]);

    let m = Variable::input_variable(&mut g, &Shape::new(vec![3, 4]));
    let h = ops::times(&mut g, &w, &m);
    assert_eq!(h.outputs()[0].shape().to_vec(), vec![2, 4]);

    let t = ops::transpose_times(&mut g, &w, &w);
    assert_eq!(t.outputs()[0].shape().to_vec(), vec![3, 3]);
}

#[test]
fn transpose_swaps_the_axes() {
    let mut g = Graph::new();
    let x = Variable::input_variable(&mut g, &Shape::new(vec![2, 3]));
    let f = ops::transpose(&mut g, &x);
    assert_eq!(f.outputs()[0].shape().to_vec(), vec![3, 2]);
}

#[test]
fn reshape_keeps_the_element_count() {
    let mut g = Graph::new();
    let x = Variable::input_variable(&mut g, &Shape::new(vec![2, 3]));
    let f = ops::reshape(&mut g, &x, &Shape::new(vec![6]));
    assert_eq!(f.outputs()[0].shape().to_vec(), vec![6]);
}

#[test]
fn named_alias_names_its_output() {
    let mut g = Graph::new();
    let x = Variable::input_variable(&mut g, &Shape::new(vec![4]));
    let f = ops::named_alias(&mut g, &x, "logits");
    assert_eq!(f.outputs()[0].name(), "logits");
    assert_eq!(f.outputs()[0].shape().to_vec(), vec![4]);
}

#[test]
fn parameters_are_gathered_through_the_graph() {
    let mut g = Graph::new();
    let x = Variable::input_variable(&mut g, &Shape::new(vec![3]));
    let w = Variable::parameter(
        &mut g,
        &Shape::new(vec![2, 3]),
        &ParameterInitializer::<f64>::glorot_uniform(),
        DeviceDescriptor::cpu(),
    );
    let b = Variable::parameter(
        &mut g,
        &Shape::new(vec![2]),
        &ParameterInitializer::<f64>::glorot_uniform(),
        DeviceDescriptor::cpu(),
    );
    let wx = ops::times(&mut g, &w, &x);
    let lin = ops::plus(&mut g, &wx.to_variable().unwrap(), &b);
    assert_eq!(lin.num_parameters(), 2);
    let out = ops::tanh(&mut g, &lin.to_variable().unwrap());
    assert_eq!(out.num_parameters(), 2);
    for p in out.parameters() {
        assert!(p.is_parameter());
    }
}

#[test]
fn shared_parameters_are_listed_once() {
    let mut g = Graph::new();
    let x = Variable::input_variable(&mut g, &Shape::new(vec![3]));
    let w = Variable::parameter(
        &mut g,
        &Shape::new(vec![3]),
        &ParameterInitializer::<f64>::glorot_uniform(),
        DeviceDescriptor::cpu(),
    );
    let left = ops::element_times(&mut g, &w, &x);
    let right = ops::plus(&mut g, &w, &x);
    let both = ops::plus(
        &mut g,
        &left.to_variable().unwrap(),
        &right.to_variable().unwrap(),
    );
    assert_eq!(both.num_parameters(), 1);
}

#[test]
fn replace_placeholders_substitutes_inputs() {
    let mut g = Graph::new();
    let ph = Variable::placeholder(&mut g, &Shape::new(vec![3]));
    let f = ops::sigmoid(&mut g, &ph);
    let sub = Variable::input_variable_with_name(&mut g, &Shape::new(vec![3]), "sub");
    let mut map = ReplacementMap::new();
    map.add(&ph, &sub);
    let replaced = f.replace_placeholders(&map);
    assert_eq!(replaced.num_inputs(), 1);
    assert_eq!(replaced.inputs()[0].name(), "sub");
    assert_eq!(replaced.outputs()[0].shape().to_vec(), vec![3]);
}

#[test]
fn replace_placeholders_brings_new_parameters() {
    let mut g = Graph::new();
    let ph = Variable::placeholder(&mut g, &Shape::new(vec![3]));
    let f = ops::sigmoid(&mut g, &ph);
    assert_eq!(f.num_parameters(), 0);
    let w = Variable::parameter(
        &mut g,
        &Shape::new(vec![3]),
        &ParameterInitializer::<f64>::glorot_uniform(),
        DeviceDescriptor::cpu(),
    );
    let mut map = ReplacementMap::new();
    map.add(&ph, &w);
    let replaced = f.replace_placeholders(&map);
    assert_eq!(replaced.num_parameters(), 1);
}

#[test]
fn check_parameters_accepts_only_parameters() {
    let mut g = Graph::new();
    let w = Variable::parameter(
        &mut g,
        &Shape::new(vec![2]),
        &ParameterInitializer::<f64>::xavier(),
        DeviceDescriptor::cpu(),
    );
    let x = Variable::input_variable(&mut g, &Shape::new(vec![2]));
    assert!(check_parameters(&vec![w.clone()]));
    assert!(!check_parameters(&vec![w, x]));
}

#[test]
fn learners_and_trainers_assemble() {
    let mut g = Graph::new();
    let x = Variable::input_variable(&mut g, &Shape::new(vec![3]));
    let w = Variable::parameter(
        &mut g,
        &Shape::new(vec![3]),
        &ParameterInitializer::<f64>::normal(0.5),
        DeviceDescriptor::cpu(),
    );
    let model = ops::element_times(&mut g, &w, &x);
    let loss = ops::negate(&mut g, &model.to_variable().unwrap());
    let error = ops::abs(&mut g, &model.to_variable().unwrap());
    let params = model.parameters();

    let learner = Learner::sgd(&params, &DoubleParameterSchedule::constant(0.01f64));
    let _trainer = Trainer::new(&model, &loss, &learner);

    let momentum = Learner::momentum_sgd(
        &params,
        &DoubleParameterSchedule::constant(0.01f64),
        &DoubleParameterSchedule::constant(0.9f64),
    );
    let _trainer2 = Trainer::new_with_evalatuion(&model, &loss, &error, &momentum);

    let _adam = Learner::adam(
        &params,
        &DoubleParameterSchedule::constant(0.001f64),
        &DoubleParameterSchedule::constant(0.9f64),
    );
}

#[test]
fn graph_construction_round_trip() {
    let mut g = Graph::new();
    let var = Variable::input_variable(&mut g, &Shape::new(vec![5]));
    let var2 = Variable::input_variable(&mut g, &Shape::new(vec![5]));
    let inner = ops::plus(&mut g, &var, &var2);
    let outer = ops::plus(&mut g, &var, &inner.to_variable().unwrap());
    assert_eq!(outer.num_inputs(), 2);
    assert_eq!(outer.num_outputs(), 1);
    assert_eq!(outer.outputs()[0].shape().to_vec(), vec![5]);
    assert_eq!(outer.num_parameters(), 0);
}

#[test]
fn comparison_ops_broadcast_like_plus() {
    let mut g = Graph::new();
    let x = Variable::input_variable(&mut g, &Shape::new(vec![2, 1]));
    let y = Variable::input_variable(&mut g, &Shape::new(vec![2, 5]));
    let f = ops::greater_equal(&mut g, &x, &y);
    assert_eq!(f.outputs()[0].shape().to_vec(), vec![2, 5]);
}

#[test]
fn random_like_follows_the_operand_shape() {
    let mut g = Graph::new();
    let x = Variable::input_variable(&mut g, &Shape::new(vec![4, 2]));
    let f = ops::uniform_random_like(&mut g, &x, 0.0f64, 1.0f64);
    assert_eq!(f.outputs()[0].shape().to_vec(), vec![4, 2]);
    assert_eq!(f.num_parameters(), 0);
}

#[test]
fn splice_adds_dimensions_along_the_axis() {
    let mut g = Graph::new();
    let var = Variable::input_variable(&mut g, &Shape::new(vec![2, 3]));
    let var2 = Variable::input_variable(&mut g, &Shape::new(vec![2, 3]));
    let stacked = ops::splice(&mut g, &vec![var.clone(), var2.clone()], &Axis::new(0));
    assert_eq!(stacked.outputs()[0].shape().to_vec(), vec![4, 3]);
    assert_eq!(stacked.num_inputs(), 2);
    let beside = ops::splice(&mut g, &vec![var, var2], &Axis::new(1));
    assert_eq!(beside.outputs()[0].shape().to_vec(), vec![2, 6]);
}

#[test]
fn slice_cuts_spans_out_of_axes() {
    let mut g = Graph::new();
    let x = Variable::input_variable(&mut g, &Shape::new(vec![2, 3]));
    let f = ops::slice(&mut g, &x, &vec![Axis::new(0)], &vec![0], &vec![1]);
    assert_eq!(f.outputs()[0].shape().to_vec(), vec![1, 3]);
    let h = ops::slice(&mut g, &x, &vec![Axis::new(1)], &vec![0], &vec![2]);
    assert_eq!(h.outputs()[0].shape().to_vec(), vec![2, 2]);
    let n = ops::slice(&mut g, &x, &vec![Axis::new(1)], &vec![-2], &vec![-1]);
    assert_eq!(n.outputs()[0].shape().to_vec(), vec![2, 1]);
    let both = ops::slice(
        &mut g,
        &x,
        &vec![Axis::new(0), Axis::new(1)],
        &vec![0, 1],
        &vec![1, 3],
    );
    assert_eq!(both.outputs()[0].shape().to_vec(), vec![1, 2]);
}

#[test]
fn transpose_axes_swaps_the_named_axes() {
    let mut g = Graph::new();
    let x = Variable::input_variable(&mut g, &Shape::new(vec![2, 3]));
    let f = ops::transpose_axes(&mut g, &x, &Axis::new(0), &Axis::new(1));
    assert_eq!(f.outputs()[0].shape().to_vec(), vec![3, 2]);
}

#[test]
fn reductions_keep_one_point_on_the_axis() {
    let mut g = Graph::new();
    let x = Variable::input_variable(&mut g, &Shape::new(vec![2, 3]));
    let f = ops::reduce_sum(&mut g, &x, &Axis::new(0));
    assert_eq!(f.outputs()[0].shape().to_vec(), vec![1, 3]);
    let h = ops::reduce_max(&mut g, &x, &Axis::new(1));
    assert_eq!(h.outputs()[0].shape().to_vec(), vec![2, 1]);
    let a = ops::argmax(&mut g, &x, &Axis::new(1));
    assert_eq!(a.outputs()[0].shape().to_vec(), vec![2, 1]);
}

#[test]
fn names_cross_the_boundary_unchanged() {
    let mut g = Graph::new();
    let name = "\u{e9}tiquette de sortie \u{2013} couche 2";
    let x = Variable::input_variable_with_name(&mut g, &Shape::new(vec![2]), name);
    assert_eq!(x.name(), name);
    let f = ops::named_alias(&mut g, &x, name);
    assert_eq!(f.outputs()[0].name(), name);
}

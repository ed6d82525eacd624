use cntk::DataMap;
use cntk::DeviceDescriptor;
use cntk::Graph;
use cntk::ReplacementMap;
use cntk::Shape;
use cntk::Value;
use cntk::Variable;
use cntk::VariableSet;

#[test]
fn data_map_test_create() {
    let _map: DataMap<f32> = DataMap::new();
}

#[test]
fn data_map_test_add_and_get() {
    let mut g = Graph::new();
    let mut map: DataMap<f32> = DataMap::new();
    let var = Variable::input_variable(&mut g, &Shape::scalar());
    let var2 = Variable::input_variable(&mut g, &Shape::scalar());

    let data: Vec<f32> = vec![11.0, 12.0, 13.0, 14.0, 15.0, 16.0, 17.0, 18.0, 19.0, 110.0];

    let val = Value::batch_from_vec(&var.shape(), &data, DeviceDescriptor::cpu());
    map.add(&var, &val);
    assert_eq!(map.get(&var).is_some(), true);
    assert_eq!(map.get(&var2).is_some(), false);
}

#[test]
fn replacement_map_test_create() {
    let _map = ReplacementMap::new();
}

#[test]
fn replacement_map_test_add_and_get() {
    let mut g = Graph::new();
    let mut map = ReplacementMap::new();
    let var = Variable::input_variable(&mut g, &Shape::scalar());
    let var2 = Variable::input_variable(&mut g, &Shape::scalar());

    map.add(&var, &var2);
}

#[test]
fn variable_set_test_create() {
    let _set = VariableSet::new();
}

#[test]
fn test_add() {
    let mut g = Graph::new();
    let mut set = VariableSet::new();
    let var = Variable::input_variable(&mut g, &Shape::scalar());

    set.add(&var);
}

#[test]
fn binding_insert_then_lookup_returns_value() {
    let mut g = Graph::new();
    let mut map: DataMap<f32> = DataMap::new();
    let var = Variable::input_variable(&mut g, &Shape::new(vec![3]));
    let data: Vec<f32> = vec![1.0, 2.0, 3.0];
    let val = Value::from_vec(&var.shape(), &data, DeviceDescriptor::cpu());
    map.add(&var, &val);
    assert_eq!(map.get(&var).unwrap().to_vec(), data);
}

#[test]
fn binding_last_write_wins() {
    let mut g = Graph::new();
    let mut map: DataMap<f32> = DataMap::new();
    let var = Variable::input_variable(&mut g, &Shape::scalar());
    let first = Value::from_vec(&Shape::scalar(), &vec![1.5f32], DeviceDescriptor::cpu());
    let second = Value::from_vec(&Shape::scalar(), &vec![2.5f32], DeviceDescriptor::cpu());
    map.add(&var, &first);
    map.add(&var, &second);
    assert_eq!(map.get(&var).unwrap().to_vec(), vec![2.5f32]);
}

#[test]
fn lookup_never_inserted_is_absent() {
    let mut g = Graph::new();
    let map: DataMap<f32> = DataMap::new();
    let var = Variable::input_variable(&mut g, &Shape::scalar());
    assert!(map.get(&var).is_none());
}

#[test]
fn null_binding_reports_absent() {
    let mut g = Graph::new();
    let mut map: DataMap<f32> = DataMap::new();
    let var = Variable::input_variable(&mut g, &Shape::scalar());
    map.add_null(&var);
    assert!(map.get(&var).is_none());
}

#[test]
fn null_binding_overwrites_value() {
    let mut g = Graph::new();
    let mut map: DataMap<f32> = DataMap::new();
    let var = Variable::input_variable(&mut g, &Shape::scalar());
    let val = Value::from_vec(&Shape::scalar(), &vec![4.0f32], DeviceDescriptor::cpu());
    map.add(&var, &val);
    map.add_null(&var);
    assert!(map.get(&var).is_none());
    map.add(&var, &val);
    assert_eq!(map.get(&var).unwrap().to_vec(), vec![4.0f32]);
}

#[test]
fn clone_preserves_binding_key() {
    let mut g = Graph::new();
    let mut map: DataMap<f32> = DataMap::new();
    let var = Variable::input_variable(&mut g, &Shape::scalar());
    let copy = var.clone();
    let val = Value::from_vec(&Shape::scalar(), &vec![9.0f32], DeviceDescriptor::cpu());
    map.add(&copy, &val);
    assert_eq!(map.get(&var).unwrap().to_vec(), vec![9.0f32]);
}

#[test]
fn value_batch_shape_has_dynamic_axes() {
    let shape = Shape::new(vec![5]);
    let data: Vec<f32> = vec![1.0, 2.0, 3.0, 4.0, 5.0, 6.0, 7.0, 8.0, 9.0, 10.0];
    let val = Value::batch_from_vec(&shape, &data, DeviceDescriptor::cpu());
    assert_eq!(val.shape().to_vec(), vec![5, 1, 2]);
    assert_eq!(val.shape().to_vec_reversed(), vec![2, 1, 5]);
    assert_eq!(val.to_vec(), data);
}

#[test]
fn value_sequence_shape_has_dynamic_axes() {
    let shape = Shape::new(vec![2]);
    let data: Vec<f32> = vec![1.0, 2.0, 3.0, 4.0, 5.0, 6.0];
    let val = Value::sequence_from_vec(&shape, &data, DeviceDescriptor::cpu());
    assert_eq!(val.shape().to_vec(), vec![2, 3, 1]);
    assert_eq!(val.to_vec(), data);
}

#[test]
fn value_from_vec_keeps_exact_shape() {
    let shape = Shape::new(vec![2, 3]);
    let data: Vec<f32> = vec![1.0, 2.0, 3.0, 4.0, 5.0, 6.0];
    let val = Value::from_vec(&shape, &data, DeviceDescriptor::cpu());
    assert_eq!(val.shape().to_vec(), vec![2, 3]);
    assert_eq!(val.to_vec(), data);
}

use bvreader::error::Error;
use bvreader::orientation::{parse_multiplexed_data, parse_vectorized_data};

#[test]
fn test_parse_multiplexed() {
    let res = parse_multiplexed_data(vec![
        110., 
        80.,
        20., 
        30., 
        110., 
        80., 
        20., 
        30.], 2).unwrap();
    assert_eq!(res, vec![vec![
        110., 20., 110., 20.,
    ],vec![
        80., 30., 80., 30.,
    ]])
}

#[test]
fn test_parse_multiplexed_empty() {
    let res: Vec<Vec<f32>> = parse_multiplexed_data(vec![], 2).unwrap();
    let expected: Vec<Vec<f32>>  = vec![vec![],vec![]];
    assert_eq!(res, expected) 

}

#[test]
fn test_parse_vectorized() {
    let res = parse_vectorized_data(vec![
        110., 
        80.,
        20., 
        30., 
        110., 
        80., 
        20., 
        30.], 2).unwrap();
    assert_eq!(res, vec![vec![
        110., 80., 20., 30.,
    ],vec![
        110., 80., 20., 30.,
    ]])
}

#[test]
fn test_parse_vectorized_empty() {
    let res: Vec<Vec<f32>> = parse_vectorized_data(vec![], 2).unwrap();
    let expected: Vec<Vec<f32>>  = vec![vec![],vec![]];
    assert_eq!(res, expected) 
}

#[test]
fn zero_channels_is_an_error() {
    assert_eq!(parse_multiplexed_data(vec![1u8, 2], 0), Err(Error::ZeroChannels));
    assert_eq!(parse_vectorized_data(Vec::<u8>::new(), 0), Err(Error::ZeroChannels));
}

#[test]
fn multiplexed_uneven_count_is_an_error() {
    assert_eq!(
        parse_multiplexed_data(vec![1, 2, 3, 4, 5], 2),
        Err(Error::BinaryOrientationError("MULTIPLEXED".to_string(), 5, 6))
    );
}

#[test]
fn vectorized_uneven_count_is_an_error() {
    assert_eq!(
        parse_vectorized_data(vec![1, 2, 3, 4, 5], 2),
        Err(Error::BinaryOrientationError("VECTORIZED".to_string(), 5, 4))
    );
    assert_eq!(
        parse_vectorized_data(vec![1], 3),
        Err(Error::BinaryOrientationError("VECTORIZED".to_string(), 1, 0))
    );
}

#[test]
fn three_channels_both_layouts() {
    let flat = vec![1, 2, 3, 4, 5, 6];
    assert_eq!(parse_multiplexed_data(flat.clone(), 3).unwrap(), vec![vec![1, 4], vec![2, 5], vec![3, 6]]);
    assert_eq!(parse_vectorized_data(flat, 3).unwrap(), vec![vec![1, 2], vec![3, 4], vec![5, 6]]);
}

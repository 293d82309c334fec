use linreg::housing::{house_vec_to_arr, HouseData, Houses};

fn sample(price: i32, area: i32, bedrooms: i32, bathrooms: i32, stories: i32) -> HouseData {
    HouseData { price, area, bedrooms, bathrooms, stories }
}

#[test]
fn house_vec_to_arr_keeps_records() {
    let records = vec![sample(100, 50, 2, 1, 1), sample(250, 120, 4, 2, 2)];
    let shaped = house_vec_to_arr::<2>(records.clone());
    assert_eq!(shaped, records);
}

#[test]
fn to_xy_data_feature_columns() {
    let houses: Houses<2> = Houses {
        data: vec![sample(13300000, 7420, 4, 2, 3), sample(12250000, 8960, 4, 4, 4)],
    };
    let (x, y) = houses.to_xy_data();
    assert_eq!(x, vec![vec![7420, 4, 2, 3, 1], vec![8960, 4, 4, 4, 1]]);
    assert_eq!(y, vec![13300000, 12250000]);
}

#[test]
fn to_xy_data_empty() {
    let houses: Houses<0> = Houses { data: vec![] };
    let (x, y) = houses.to_xy_data();
    assert!(x.is_empty());
    assert!(y.is_empty());
}

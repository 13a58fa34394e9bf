use cindy::generics::{
    DateFiltering, I16Filtering, I32Filtering, NullableI32Filtering, NullableTimestamptzFiltering,
    RawFilter, StringFiltering, TimestamptzFiltering,
};

fn i32_none() -> I32Filtering {
    I32Filtering { eq: None, gt: None, lt: None, ge: None, le: None, eq_any: None }
}

#[test]
fn i32_builders_set_one_condition_each() {
    assert_eq!(I32Filtering::eq(5), I32Filtering { eq: Some(5), ..i32_none() });
    assert_eq!(I32Filtering::gt(5), I32Filtering { gt: Some(5), ..i32_none() });
    assert_eq!(I32Filtering::ge(5), I32Filtering { ge: Some(5), ..i32_none() });
    assert_eq!(I32Filtering::lt(5), I32Filtering { lt: Some(5), ..i32_none() });
    assert_eq!(I32Filtering::le(5), I32Filtering { le: Some(5), ..i32_none() });
    assert_eq!(
        I32Filtering::eq_any(vec![1, 2]),
        I32Filtering { eq_any: Some(vec![1, 2]), ..i32_none() }
    );
}

#[test]
fn i32_checks_follow_the_first_condition() {
    assert!(I32Filtering::eq(5).check(&5));
    assert!(!I32Filtering::eq(5).check(&6));
    assert!(I32Filtering::gt(5).check(&6));
    assert!(!I32Filtering::gt(5).check(&5));
    assert!(I32Filtering::ge(5).check(&5));
    assert!(!I32Filtering::ge(5).check(&4));
    assert!(I32Filtering::lt(5).check(&4));
    assert!(!I32Filtering::lt(5).check(&5));
    assert!(I32Filtering::le(5).check(&5));
    assert!(!I32Filtering::le(5).check(&6));
    assert!(I32Filtering::eq_any(vec![1, 3, 5]).check(&3));
    assert!(!I32Filtering::eq_any(vec![1, 3, 5]).check(&2));
    assert!(!I32Filtering::eq_any(vec![]).check(&2));
    assert!(i32_none().check(&123));
}

#[test]
fn i32_earlier_conditions_shadow_later_ones() {
    let filter = I32Filtering { eq: Some(5), gt: Some(100), ..i32_none() };
    // eq decides; the gt condition is never consulted
    assert!(filter.check(&5));
    assert!(!filter.check(&200));
}

#[test]
fn i16_checks_follow_the_first_condition() {
    let none = I16Filtering { eq: None, gt: None, lt: None, ge: None, le: None, eq_any: None };
    assert!(I16Filtering { eq: Some(2), ..none.clone() }.check(&2));
    assert!(!I16Filtering { eq: Some(2), ..none.clone() }.check(&3));
    assert!(I16Filtering { eq_any: Some(vec![7, 8]), ..none.clone() }.check(&8));
    assert!(!I16Filtering { eq_any: Some(vec![7, 8]), ..none.clone() }.check(&9));
    assert!(none.check(&0));
}

#[test]
fn string_filtering_checks_equality_only() {
    let eq = StringFiltering { eq: Some(String::from("abc")), like: None, ilike: None };
    assert!(eq.check(&String::from("abc")));
    assert!(!eq.check(&String::from("abd")));
    let like_only =
        StringFiltering { eq: None, like: Some(String::from("%a%")), ilike: None };
    // pattern conditions are applied by the query layer, not here
    assert!(like_only.check(&String::from("zzz")));
}

#[test]
fn nullable_i32_null_items_pass_only_unconditioned_filters() {
    let none = NullableI32Filtering {
        is_null: None,
        eq: None,
        gt: None,
        lt: None,
        ge: None,
        le: None,
        eq_any: None,
    };
    assert!(none.check(&None));
    assert!(none.check(&Some(3)));
    let wants_null = NullableI32Filtering { is_null: Some(true), ..none.clone() };
    assert!(wants_null.check(&None));
    assert!(!wants_null.check(&Some(3)));
    let wants_value = NullableI32Filtering { is_null: Some(false), ..none.clone() };
    assert!(!wants_value.check(&None));
    assert!(wants_value.check(&Some(3)));
    let eq = NullableI32Filtering { eq: Some(3), ..none.clone() };
    assert!(eq.check(&Some(3)));
    assert!(!eq.check(&Some(4)));
    assert!(!eq.check(&None));
}

#[test]
fn timestamp_and_date_filters_compare_numerically() {
    let ts = TimestamptzFiltering {
        eq: None,
        gt: Some(1_000_000),
        lt: None,
        ge: None,
        le: None,
        eq_any: None,
    };
    assert!(ts.check(&1_000_001));
    assert!(!ts.check(&1_000_000));
    let date = DateFiltering { eq: Some(738000), gt: None, lt: None, ge: None, le: None, eq_any: None };
    assert!(date.check(&738000));
    assert!(!date.check(&738001));
    let nts = NullableTimestamptzFiltering {
        is_null: None,
        eq: None,
        gt: None,
        lt: None,
        ge: None,
        le: Some(50),
        eq_any: None,
    };
    assert!(nts.check(&Some(50)));
    assert!(!nts.check(&Some(51)));
    assert!(!nts.check(&None));
}

#[test]
fn vec_of_filters_is_a_conjunction() {
    let both = vec![I32Filtering::ge(5), I32Filtering::le(10)];
    assert!(both.check(&7));
    assert!(!both.check(&4));
    assert!(!both.check(&11));
    let empty: Vec<I32Filtering> = vec![];
    assert!(empty.check(&1000));
}

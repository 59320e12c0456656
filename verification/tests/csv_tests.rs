use reset_bench::csv::{times_to_csv_content, u128_to_string};

#[test]
fn decimal_text_of_small_numbers() {
    assert_eq!(u128_to_string(0), "0");
    assert_eq!(u128_to_string(7), "7");
    assert_eq!(u128_to_string(10), "10");
    assert_eq!(u128_to_string(105), "105");
}

#[test]
fn decimal_text_of_large_numbers() {
    assert_eq!(u128_to_string(1_000_000), "1000000");
    assert_eq!(u128_to_string(u128::MAX), "340282366920938463463374607431768211455");
}

#[test]
fn csv_header_lists_every_strategy() {
    let data: Vec<Vec<String>> = vec![vec![]];
    let content = times_to_csv_content(&data);
    assert_eq!(
        content,
        "Iteration,Placebo,IfCounter,ModuloCounter,BooleanMulCounter,BooleanWrapCounter\n"
    );
}

#[test]
fn csv_rows_are_numbered_and_comma_joined() {
    let data: Vec<Vec<String>> = vec![
        vec!["11".to_string(), "12".to_string()],
        vec!["21".to_string(), "22".to_string()],
        vec!["31".to_string(), "32".to_string()],
        vec!["41".to_string(), "42".to_string()],
        vec!["51".to_string(), "52".to_string()],
    ];
    let content = times_to_csv_content(&data);
    let expected = "Iteration,Placebo,IfCounter,ModuloCounter,BooleanMulCounter,BooleanWrapCounter\n\
        1,11,21,31,41,51\n\
        2,12,22,32,42,52\n";
    assert_eq!(content, expected);
}

#[test]
fn csv_single_column_has_no_trailing_comma_in_rows() {
    let data: Vec<Vec<String>> = vec![vec!["7".to_string()]];
    let content = times_to_csv_content(&data);
    let expected = "Iteration,Placebo,IfCounter,ModuloCounter,BooleanMulCounter,BooleanWrapCounter\n\
        1,7\n";
    assert_eq!(content, expected);
}

#[test]
fn csv_row_count_follows_the_first_column() {
    let data: Vec<Vec<String>> = vec![
        vec!["1".to_string()],
        vec!["2".to_string(), "9".to_string()],
    ];
    let content = times_to_csv_content(&data);
    let expected = "Iteration,Placebo,IfCounter,ModuloCounter,BooleanMulCounter,BooleanWrapCounter\n\
        1,1,2\n";
    assert_eq!(content, expected);
}

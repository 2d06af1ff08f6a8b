use histdb_skim::environment::{
    date_format_for, get_current_host, get_current_session_id, get_date_format,
    get_histdb_database, get_nosort_option, nosort_for,
};
use histdb_skim::text::same_text;

#[test]
fn date_format_defaults_to_day_first() {
    assert_eq!(get_date_format(None), "%d/%m/%Y");
    assert_eq!(get_date_format(Some("non-us")), "%d/%m/%Y");
    assert_eq!(get_date_format(Some("")), "%d/%m/%Y");
    assert_eq!(get_date_format(Some("usa")), "%d/%m/%Y");
}

#[test]
fn date_format_us_whatever_the_case() {
    assert_eq!(get_date_format(Some("us")), "%m/%d/%Y");
    assert_eq!(get_date_format(Some("US")), "%m/%d/%Y");
    assert_eq!(get_date_format(Some("Us")), "%m/%d/%Y");
}

#[test]
fn date_format_for_a_lower_case_selector() {
    assert_eq!(date_format_for("us"), "%m/%d/%Y");
    assert_eq!(date_format_for("US"), "%d/%m/%Y");
    assert_eq!(date_format_for("non-us"), "%d/%m/%Y");
}

#[test]
fn unset_variables_read_as_empty() {
    assert_eq!(get_histdb_database(None), "");
    assert_eq!(get_current_session_id(None), "");
    assert_eq!(get_current_host(None), "");
}

#[test]
fn set_variables_read_as_they_are() {
    assert_eq!(get_histdb_database(Some("/home/u/.histdb/zsh-history.db")), "/home/u/.histdb/zsh-history.db");
    assert_eq!(get_current_session_id(Some("4711")), "4711");
    assert_eq!(get_current_host(Some("workstation")), "workstation");
}

#[test]
fn host_loses_the_quotes_around_it() {
    assert_eq!(get_current_host(Some("'workstation'")), "workstation");
    assert_eq!(get_current_host(Some("''")), "");
    assert_eq!(get_current_host(Some("'wörk'")), "wörk");
    assert_eq!(get_current_host(Some("'a'b'")), "a'b");
}

#[test]
fn host_keeps_a_quote_that_is_not_one_of_a_pair() {
    assert_eq!(get_current_host(Some("'workstation")), "'workstation");
    assert_eq!(get_current_host(Some("workstation'")), "workstation'");
    assert_eq!(get_current_host(Some("'")), "'");
    assert_eq!(get_current_host(Some("work'station")), "work'station");
}

#[test]
fn nosort_is_off_unless_asked_for() {
    assert!(!get_nosort_option(None));
    assert!(!get_nosort_option(Some("false")));
    assert!(!get_nosort_option(Some("0")));
    assert!(!get_nosort_option(Some("yes")));
    assert!(!get_nosort_option(Some("")));
}

#[test]
fn nosort_is_on_for_true_and_one() {
    assert!(get_nosort_option(Some("true")));
    assert!(get_nosort_option(Some("TRUE")));
    assert!(get_nosort_option(Some("True")));
    assert!(get_nosort_option(Some("1")));
}

#[test]
fn nosort_from_value_and_lower_case_form() {
    assert!(nosort_for("TRUE", "true"));
    assert!(nosort_for("1", "1"));
    assert!(!nosort_for("TRUE", "TRUE"));
    assert!(!nosort_for("11", "11"));
}

#[test]
fn same_text_compares_whole_texts() {
    assert!(same_text("", ""));
    assert!(same_text("us", "us"));
    assert!(!same_text("us", "usa"));
    assert!(!same_text("us", "Us"));
}

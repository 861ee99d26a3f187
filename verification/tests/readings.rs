use sep2_bridge::sep2_connection::readings::{Delivery, Report, Step};

fn text(s: &str) -> Option<String> {
    Some(String::from(s))
}

fn post(href: &str, index: usize) -> Step {
    Step::Post { href: String::from(href), index }
}

#[test]
fn readings_follow_a_known_usage_point() {
    let mut d = Delivery::new(2, text("/mup/1"), text("/mup"));
    assert_eq!(d.step(), post("/mup/1", 0));
    d.report(Report::Posted(true));
    assert_eq!(d.step(), post("/mup/1", 1));
    d.report(Report::Posted(true));
    assert_eq!(d.step(), Step::Done(true));
}

#[test]
fn a_found_usage_point_takes_the_reading_and_the_rest() {
    let mut d = Delivery::new(2, None, text("/mup"));
    assert_eq!(d.step(), Step::Lookup { list: String::from("/mup") });
    d.report(Report::Found(Some(text("/mup/3"))));
    assert_eq!(d.step(), post("/mup/3", 0));
    d.report(Report::Posted(true));
    assert_eq!(d.usage_point, text("/mup/3"));
    assert_eq!(d.step(), post("/mup/3", 1));
    d.report(Report::Posted(true));
    assert_eq!(d.step(), Step::Done(true));
}

#[test]
fn a_missing_usage_point_is_created_with_the_reading() {
    let mut d = Delivery::new(2, None, text("/mup"));
    d.report(Report::Found(None));
    assert_eq!(d.step(), Step::Create { list: String::from("/mup"), index: 0 });
    d.report(Report::Created(text("/mup/9")));
    assert_eq!(d.step(), post("/mup/9", 1));
    d.report(Report::Created(None));
    assert_eq!(d.step(), post("/mup/9", 1));
}

#[test]
fn failures_end_the_delivery() {
    let no_list = Delivery::new(1, None, None);
    assert_eq!(no_list.step(), Step::Done(false));

    let mut no_href = Delivery::new(1, None, text("/mup"));
    no_href.report(Report::Found(Some(None)));
    assert_eq!(no_href.step(), Step::Done(false));

    let mut refused = Delivery::new(3, text("/mup/1"), text("/mup"));
    refused.report(Report::Posted(true));
    refused.report(Report::Posted(false));
    assert_eq!(refused.step(), Step::Done(false));
    assert_eq!(refused.index, 1);
    assert_eq!(refused.usage_point, text("/mup/1"));

    let mut not_created = Delivery::new(1, None, text("/mup"));
    not_created.report(Report::Found(None));
    not_created.report(Report::Created(None));
    assert_eq!(not_created.step(), Step::Done(false));
    assert_eq!(not_created.usage_point, None);
}

#[test]
fn nothing_to_send_is_done() {
    let d = Delivery::new(0, None, None);
    assert_eq!(d.step(), Step::Done(true));
}

use wundergraph::lazy_load::LazyLoad;
use wundergraph::nameable::Nameable;

#[test]
fn default_is_not_loaded() {
    let l: LazyLoad<i32> = Default::default();
    assert!(matches!(l, LazyLoad::NotLoaded));
}

#[test]
fn is_loaded_reports_the_state() {
    let absent: LazyLoad<i32> = LazyLoad::NotLoaded;
    assert!(!absent.is_loaded());
    let present = LazyLoad::Item(3);
    assert!(present.is_loaded());
}

#[test]
fn from_option_absent_is_not_loaded() {
    let l: LazyLoad<String> = LazyLoad::from_option(None);
    assert_eq!(l, LazyLoad::NotLoaded);
}

#[test]
fn from_option_present_is_item() {
    let l = LazyLoad::from_option(Some(42i64));
    assert_eq!(l, LazyLoad::Item(42));
}

#[test]
fn expect_loaded_returns_the_item() {
    let l = LazyLoad::Item(String::from("hello"));
    assert!(l.is_loaded());
    assert_eq!(l.expect_loaded("item should be loaded"), "hello");
}

#[test]
fn resolve_target_on_not_loaded_is_a_field_error() {
    let l: LazyLoad<i32> = LazyLoad::NotLoaded;
    match l.resolve_target() {
        Err(message) => {
            assert!(!message.is_empty());
            assert_eq!(message, "LazyLoad item not loaded");
        }
        Ok(_) => panic!("a value that was never loaded must not resolve"),
    }
}

#[test]
fn resolve_target_on_item_forwards_to_the_item() {
    let l = LazyLoad::Item(vec![1u8, 2, 3]);
    match l.resolve_target() {
        Ok(item) => assert_eq!(item, &vec![1u8, 2, 3]),
        Err(_) => panic!("a loaded value must resolve"),
    }
}

#[test]
fn converted_input_is_always_loaded() {
    let l = LazyLoad::from_converted(Some(7u16));
    assert_eq!(l, Some(LazyLoad::Item(7)));
}

#[test]
fn failed_conversion_stays_a_failure() {
    let l: Option<LazyLoad<u16>> = LazyLoad::from_converted(None);
    assert_eq!(l, None);
}

#[test]
fn fatal_paths_are_guarded_by_the_load_state() {
    // Output conversion and concrete-type lookup may only run on loaded
    // values; the guard is the load state, checked before the access.
    let values = [LazyLoad::NotLoaded, LazyLoad::Item(5u32)];
    let mut seen: u32 = 0;
    for v in &values {
        if v.is_loaded() {
            seen += *v.expect_loaded("guarded access");
        }
    }
    assert_eq!(seen, 5);
}

#[test]
fn output_conversion_only_on_loaded_values() {
    let l = LazyLoad::Item(9i32);
    // The guard callers must apply before serializing.
    assert!(l.is_loaded());
    assert_eq!(*l.output_target(), 9);
    let never_loaded: LazyLoad<i32> = LazyLoad::NotLoaded;
    assert!(!never_loaded.is_loaded());
}

#[test]
fn concrete_type_lookup_only_on_loaded_values() {
    let l = LazyLoad::Item(String::from("entity"));
    // The guard callers must apply before asking for the concrete type.
    assert!(l.is_loaded());
    assert_eq!(l.concrete_type_target(), "entity");
}

struct Widget;

impl Nameable for Widget {
    // Specification-level member: never called at run time.
    fn spec_name() -> vstd::seq::Seq<char> {
        unreachable!()
    }

    fn name() -> String {
        String::from("Widget")
    }
}

#[test]
fn lazy_load_keeps_the_inner_display_name() {
    assert_eq!(<LazyLoad<Widget> as Nameable>::name(), "Widget");
    assert_eq!(<LazyLoad<Widget> as Nameable>::name(), Widget::name());
}

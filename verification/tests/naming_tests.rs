use async_global_executor::naming::{decimal_string, default_thread_name, ThreadNamer};

#[test]
fn decimal_small_and_large() {
    assert_eq!(decimal_string(0), "0");
    assert_eq!(decimal_string(7), "7");
    assert_eq!(decimal_string(10), "10");
    assert_eq!(decimal_string(1203), "1203");
    assert_eq!(decimal_string(usize::MAX), usize::MAX.to_string());
}

#[test]
fn default_thread_names() {
    assert_eq!(default_thread_name(1), "async-global-executor-1");
    assert_eq!(default_thread_name(42), "async-global-executor-42");
    assert_eq!(default_thread_name(0), "async-global-executor-0");
}

#[test]
fn default_thread_names_distinct() {
    let names: Vec<String> = (0..200).map(default_thread_name).collect();
    for i in 0..names.len() {
        for j in 0..names.len() {
            if i != j {
                assert_ne!(names[i], names[j]);
            }
        }
    }
}

#[test]
fn namer_numbers_from_one() {
    let mut namer = ThreadNamer::new();
    assert_eq!(namer.next_index(), 1);
    assert_eq!(namer.next_name(), "async-global-executor-1");
    assert_eq!(namer.next_name(), "async-global-executor-2");
    assert_eq!(namer.next_name(), "async-global-executor-3");
    assert_eq!(namer.next_index(), 4);
}

#[test]
fn namer_counts_every_name() {
    let mut namer = ThreadNamer::new();
    let mut names = Vec::new();
    for _ in 0..5 {
        names.push(namer.next_name());
    }
    assert_eq!(names[4], "async-global-executor-5");
    assert_eq!(namer.next_index(), 6);
}

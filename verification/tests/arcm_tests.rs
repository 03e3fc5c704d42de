use sovran_arc::arcm::Arcm;

#[test]
fn arcm_test_basic_usage() {
    let v = Arcm::new(1);

    v.modify(|v| *v = 42);
    assert_eq!(v.value(), 42);
}

#[test]
fn arcm_test_multiple_references() {
    let v1 = Arcm::new(1);
    let v2 = v1.clone();

    v1.modify(|v| *v = 42);
    assert_eq!(v2.value(), 42);
}

#[test]
fn test_complex_modification() {
    let numbers = Arcm::new(Vec::new());

    numbers.modify(|v| v.push(1));
    numbers.modify(|v| v.push(2));

    assert_eq!(numbers.value(), vec![1, 2]);
}

#[test]
fn arcm_test_weak_reference() {
    let strong = Arcm::new(42);
    let weak = strong.downgrade();

    assert_eq!(weak.value(), Some(42));

    // After dropping the strong reference
    drop(strong);
    assert_eq!(weak.value(), None);
}

#[test]
fn arcm_test_weak_modification() {
    let strong = Arcm::new(vec![1, 2, 3]);
    let weak = strong.downgrade();

    // Modify through weak reference
    let length = weak.modify(|v| {
        v.push(4);
        v.len()
    });
    assert_eq!(length, Some(4));
    assert_eq!(strong.value(), vec![1, 2, 3, 4]);

    // After dropping the strong reference
    drop(strong);
    let result = weak.modify(|v| v.push(5));
    assert_eq!(result, None);
}

#[test]
fn arcm_test_default() {
    // Creates an Arcm containing an empty Vec
    let vec_arcm: Arcm<Vec<i32>> = Arcm::default();
    assert_eq!(vec_arcm.value(), Vec::new());

    // Creates an Arcm containing 0
    let int_arcm: Arcm<i32> = Arcm::default();
    assert_eq!(int_arcm.value(), 0);

    // Creates an Arcm containing empty String
    let string_arcm: Arcm<String> = Arcm::default();
    assert_eq!(string_arcm.value(), String::new());
}

#[test]
fn test_from() {
    // Using From directly
    let arcm1 = Arcm::from(42);
    assert_eq!(arcm1.value(), 42);

    // Using Into (which is automatically implemented when From is implemented)
    let arcm2: Arcm<String> = "hello".to_string().into();
    assert_eq!(arcm2.value(), "hello");

    // Using into() method - with explicit type annotation
    let arcm3: Arcm<Vec<i32>> = Vec::new().into();
    assert!(arcm3.value().is_empty());
}

#[test]
fn test_arcm_replace() {
    let arcm = Arcm::new(42);

    // Test basic replace functionality
    let old_value = arcm.replace(100);
    assert_eq!(old_value, 42);
    assert_eq!(arcm.value(), 100);

    // Test replace with multiple references
    let arcm2 = arcm.clone();
    arcm.replace(200);
    assert_eq!(arcm2.value(), 200);

    // Test replace with complex types
    let vec_arcm = Arcm::new(vec![1, 2, 3]);
    let old_vec = vec_arcm.replace(vec![4, 5, 6]);
    assert_eq!(old_vec, vec![1, 2, 3]);
    assert_eq!(vec_arcm.value(), vec![4, 5, 6]);
}

#[test]
fn test_weak_arcm_replace() {
    let strong = Arcm::new(42);
    let weak = strong.downgrade();

    // Test basic replace
    let old_value = weak.replace(100);
    assert_eq!(old_value, Some(42));
    assert_eq!(strong.value(), 100);

    // Test replace after dropping strong reference
    drop(strong);
    let result = weak.replace(200);
    assert_eq!(result, None); // Should return None when strong ref is gone
}

#[test]
fn arcm_modify_returns_closure_result() {
    let cell = Arcm::new(10);
    let doubled = cell.modify(|v| {
        *v *= 2;
        *v
    });
    assert_eq!(doubled, 20);
    assert_eq!(cell.value(), 20);
}

#[test]
fn arcm_replace_chain_keeps_last_value() {
    let cell = Arcm::new(String::from("first"));
    let first = cell.replace(String::from("second"));
    let second = cell.replace(String::from("third"));
    assert_eq!(first, "first");
    assert_eq!(second, "second");
    assert_eq!(cell.value(), "third");
}

#[test]
fn arcm_weak_value_sees_later_changes() {
    let strong = Arcm::new(1);
    let weak = strong.downgrade();
    strong.modify(|v| *v = 7);
    assert_eq!(weak.value(), Some(7));
}

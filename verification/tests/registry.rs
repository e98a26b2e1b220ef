use verso::registry::{RegistryError, ViewId, Window, WindowId, WindowRegistry};

#[test]
fn new_registry_is_empty() {
    let registry = WindowRegistry::new();
    assert!(registry.is_empty());
    assert_eq!(registry.len(), 0);
    assert_eq!(registry.primary_view(), None);
    assert_eq!(registry.lookup_by_view(ViewId(1)), None);
    assert!(!registry.any_animating());
}

#[test]
fn insert_allots_rising_identifiers() {
    let mut registry = WindowRegistry::new();
    assert_eq!(registry.insert(ViewId(10)), Ok(WindowId(0)));
    assert_eq!(registry.insert(ViewId(20)), Ok(WindowId(1)));
    assert_eq!(registry.insert(ViewId(30)), Ok(WindowId(2)));
    assert_eq!(registry.len(), 3);
    assert_eq!(
        registry.windows(),
        vec![
            Window { id: WindowId(0), view: ViewId(10), animating: false },
            Window { id: WindowId(1), view: ViewId(20), animating: false },
            Window { id: WindowId(2), view: ViewId(30), animating: false },
        ]
    );
}

#[test]
fn identifiers_are_not_used_again() {
    let mut registry = WindowRegistry::new();
    assert_eq!(registry.insert(ViewId(10)), Ok(WindowId(0)));
    assert!(registry.remove(WindowId(0)).is_some());
    assert_eq!(registry.insert(ViewId(10)), Ok(WindowId(1)));
}

#[test]
fn insert_refuses_a_view_that_is_shown() {
    let mut registry = WindowRegistry::new();
    assert_eq!(registry.insert(ViewId(10)), Ok(WindowId(0)));
    assert_eq!(registry.insert(ViewId(10)), Err(RegistryError::ViewBound));
    assert_eq!(registry.len(), 1);
    assert_eq!(registry.lookup_by_view(ViewId(10)), Some(WindowId(0)));
}

#[test]
fn insert_fails_when_identifiers_are_used_up() {
    let mut registry = WindowRegistry::with_first_id(u64::MAX - 1);
    assert_eq!(registry.insert(ViewId(1)), Ok(WindowId(u64::MAX - 1)));
    assert_eq!(registry.insert(ViewId(2)), Err(RegistryError::Exhausted));
    assert_eq!(registry.len(), 1);
    assert_eq!(registry.lookup_by_view(ViewId(2)), None);
}

#[test]
fn exhaustion_is_reported_before_a_shown_view() {
    let mut registry = WindowRegistry::with_first_id(u64::MAX - 1);
    assert_eq!(registry.insert(ViewId(1)), Ok(WindowId(u64::MAX - 1)));
    assert_eq!(registry.insert(ViewId(1)), Err(RegistryError::Exhausted));
}

#[test]
fn lookup_by_view_finds_exactly_the_owner() {
    let mut registry = WindowRegistry::new();
    let a = registry.insert(ViewId(7)).unwrap();
    let b = registry.insert(ViewId(8)).unwrap();
    let c = registry.insert(ViewId(9)).unwrap();
    assert_eq!(registry.lookup_by_view(ViewId(7)), Some(a));
    assert_eq!(registry.lookup_by_view(ViewId(8)), Some(b));
    assert_eq!(registry.lookup_by_view(ViewId(9)), Some(c));
    assert_eq!(registry.lookup_by_view(ViewId(6)), None);
}

#[test]
fn views_stay_unique_over_inserts_and_removes() {
    let mut registry = WindowRegistry::new();
    let a = registry.insert(ViewId(1)).unwrap();
    let b = registry.insert(ViewId(2)).unwrap();
    assert_eq!(registry.insert(ViewId(2)), Err(RegistryError::ViewBound));
    assert_eq!(registry.remove(b), Some(Window { id: b, view: ViewId(2), animating: false }));
    let c = registry.insert(ViewId(2)).unwrap();
    assert_eq!(registry.insert(ViewId(1)), Err(RegistryError::ViewBound));
    assert_eq!(registry.remove(a), Some(Window { id: a, view: ViewId(1), animating: false }));
    let d = registry.insert(ViewId(1)).unwrap();
    let windows = registry.windows();
    assert_eq!(windows.len(), 2);
    for (i, w) in windows.iter().enumerate() {
        assert_eq!(registry.lookup_by_view(w.view), Some(w.id));
        for other in windows.iter().skip(i + 1) {
            assert_ne!(w.view, other.view);
            assert_ne!(w.id, other.id);
        }
    }
    assert_eq!(registry.lookup_by_view(ViewId(2)), Some(c));
    assert_eq!(registry.lookup_by_view(ViewId(1)), Some(d));
}

#[test]
fn remove_takes_the_window_out() {
    let mut registry = WindowRegistry::new();
    let a = registry.insert(ViewId(1)).unwrap();
    let b = registry.insert(ViewId(2)).unwrap();
    assert_eq!(registry.remove(a), Some(Window { id: a, view: ViewId(1), animating: false }));
    assert!(!registry.contains(a));
    assert!(registry.contains(b));
    assert_eq!(registry.get(a), None);
    assert_eq!(registry.lookup_by_view(ViewId(1)), None);
    assert_eq!(registry.primary_view(), Some(ViewId(2)));
    assert_eq!(registry.len(), 1);
}

#[test]
fn remove_of_unknown_window_changes_nothing() {
    let mut registry = WindowRegistry::new();
    let a = registry.insert(ViewId(1)).unwrap();
    assert_eq!(registry.remove(WindowId(99)), None);
    assert_eq!(registry.windows(), vec![Window { id: a, view: ViewId(1), animating: false }]);
}

#[test]
fn remove_of_last_window_leaves_registry_empty() {
    let mut registry = WindowRegistry::new();
    let a = registry.insert(ViewId(1)).unwrap();
    assert!(registry.remove(a).is_some());
    assert!(registry.is_empty());
    assert_eq!(registry.remove(a), None);
}

#[test]
fn primary_view_is_that_of_the_oldest_window() {
    let mut registry = WindowRegistry::new();
    let a = registry.insert(ViewId(5)).unwrap();
    registry.insert(ViewId(3)).unwrap();
    assert_eq!(registry.primary_view(), Some(ViewId(5)));
    registry.remove(a);
    assert_eq!(registry.primary_view(), Some(ViewId(3)));
}

#[test]
fn set_animating_flags_one_window() {
    let mut registry = WindowRegistry::new();
    let a = registry.insert(ViewId(1)).unwrap();
    let b = registry.insert(ViewId(2)).unwrap();
    assert!(registry.set_animating(b, true));
    assert!(registry.any_animating());
    assert_eq!(registry.get(a), Some(Window { id: a, view: ViewId(1), animating: false }));
    assert_eq!(registry.get(b), Some(Window { id: b, view: ViewId(2), animating: true }));
    assert!(registry.set_animating(b, false));
    assert!(!registry.any_animating());
    assert!(!registry.set_animating(WindowId(9), true));
    assert!(!registry.any_animating());
}

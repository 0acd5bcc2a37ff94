use wmde_comp::elements::{stack_elements, WindowElement};

fn element(id: u64, lower: bool) -> WindowElement {
    WindowElement { id, lower }
}

#[test]
fn the_shadow_goes_between() {
    let elements = vec![element(1, true), element(2, false), element(3, true), element(4, false)];
    assert_eq!(stack_elements(&elements, Some(9)), vec![2, 4, 9, 1, 3]);
    assert_eq!(stack_elements(&elements, None), vec![2, 4, 1, 3]);
}

#[test]
fn many_lower_elements_keep_their_order() {
    let elements: Vec<_> = (0..20).map(|id| element(id, true)).collect();
    let mut expected: Vec<u64> = vec![99];
    expected.extend(0..20);
    assert_eq!(stack_elements(&elements, Some(99)), expected);
}

#[test]
fn an_empty_window_has_its_shadow_only() {
    assert_eq!(stack_elements(&vec![], Some(9)), vec![9]);
    assert_eq!(stack_elements(&vec![], None), Vec::<u64>::new());
}

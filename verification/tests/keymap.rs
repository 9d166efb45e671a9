use chip8::Keymap;

fn keys(down: &[usize]) -> Keymap {
    let mut keymap = Keymap::default();
    for &k in down {
        keymap.set(k);
    }
    keymap
}

fn down(keymap: &Keymap) -> Vec<usize> {
    (0..16).filter(|&k| keymap.is_down(k)).collect()
}

#[test]
fn default_keymap_has_no_key_down() {
    assert_eq!(down(&Keymap::default()), Vec::<usize>::new());
}

#[test]
fn set_marks_one_key() {
    let mut keymap = Keymap::default();
    keymap.set(0);
    keymap.set(15);
    keymap.set(15);
    assert_eq!(down(&keymap), vec![0, 15]);
}

#[test]
fn or_is_the_union() {
    let both = keys(&[1, 2, 3]).or(&keys(&[3, 4]));
    assert_eq!(down(&both), vec![1, 2, 3, 4]);
    assert_eq!(down(&keys(&[]).or(&keys(&[]))), Vec::<usize>::new());
    assert_eq!(down(&keys(&[7]).or(&keys(&[]))), vec![7]);
}

#[test]
fn down_to_up_finds_the_lowest_released_key() {
    assert_eq!(keys(&[3]).down_to_up(&keys(&[])), Some(3));
    assert_eq!(keys(&[3, 9]).down_to_up(&keys(&[])), Some(3));
    assert_eq!(keys(&[3, 9]).down_to_up(&keys(&[3])), Some(9));
    assert_eq!(keys(&[0, 15]).down_to_up(&keys(&[0])), Some(15));
}

#[test]
fn down_to_up_is_none_without_a_release() {
    assert_eq!(keys(&[]).down_to_up(&keys(&[])), None);
    assert_eq!(keys(&[]).down_to_up(&keys(&[1, 2])), None);
    assert_eq!(keys(&[3]).down_to_up(&keys(&[3])), None);
    assert_eq!(keys(&[3]).down_to_up(&keys(&[3, 4])), None);
}

use persistent_list::list::List;
use persistent_list::render::u64_to_string;

fn from_slice(xs: &[u64]) -> List<u64> {
    // Conses in reverse so the first slice element ends up at the head.
    let mut l = List::new();
    for x in xs.iter().rev() {
        l = l.cons(*x);
    }
    l
}

#[test]
fn empty_accessors() {
    let l: List<u64> = List::new();
    assert!(l.first().is_none());
    assert!(l.rest().is_none());
    assert!(l.init().is_none());
    assert!(l.last().is_none());
    assert!(l.uncons().is_none());
}

#[test]
fn cons_first_rest() {
    let l = from_slice(&[2, 1]);
    let l2 = l.cons(5);
    assert_eq!(l2.first(), Some(&5));
    assert_eq!(l2.rest().unwrap().render(), l.render());
    let (head, tail) = l2.uncons().unwrap();
    assert_eq!(head, &5);
    assert_eq!(tail.render(), "2 : 1 : []");
}

#[test]
fn init_last_roundtrip() {
    let l = from_slice(&[3, 2, 1]);
    let init = l.init().unwrap();
    assert_eq!(init.render(), "3 : 2 : []");
    let last = *l.last().unwrap();
    let rebuilt = init.append(&List::new().cons(last));
    assert_eq!(rebuilt.render(), l.render());

    let one = from_slice(&[7]);
    let rebuilt_one = one.init().unwrap().append(&List::new().cons(*one.last().unwrap()));
    assert_eq!(rebuilt_one.render(), one.render());
}

#[test]
fn append_empty_identity() {
    let l = from_slice(&[3, 2, 1]);
    let empty: List<u64> = List::new();
    assert_eq!(l.append(&empty).render(), l.render());
    assert_eq!(empty.append(&l).render(), l.render());
    assert_eq!(empty.append(&empty).render(), "[]");
}

#[test]
fn append_associative() {
    let a = from_slice(&[1, 2]);
    let b = from_slice(&[3]);
    let c = from_slice(&[4, 5]);
    let left = a.append(&b).append(&c);
    let right = a.append(&b.append(&c));
    assert_eq!(left.render(), right.render());
    assert_eq!(left.render(), "1 : 2 : 3 : 4 : 5 : []");
}

#[test]
fn clone_does_not_affect_original() {
    let l = from_slice(&[2, 1]);
    let c = l.clone();
    let extended = c.cons(9);
    assert_eq!(extended.render(), "9 : 2 : 1 : []");
    assert_eq!(l.first(), Some(&2));
    assert_eq!(l.render(), "2 : 1 : []");
    assert_eq!(c.render(), "2 : 1 : []");
    let shortened = c.init().unwrap();
    assert_eq!(shortened.render(), "2 : []");
    assert_eq!(l.render(), "2 : 1 : []");
}

#[test]
fn build_three_scenario() {
    let l = List::new().cons(1).cons(2).cons(3);
    assert_eq!(l.first(), Some(&3));
    assert_eq!(l.rest().unwrap().render(), "2 : 1 : []");
    assert_eq!(l.init().unwrap().render(), "3 : 2 : []");
    assert_eq!(l.last(), Some(&1));
    assert_eq!(l.append(&l).render(), "3 : 2 : 1 : 3 : 2 : 1 : []");
}

#[test]
fn render_forms() {
    let empty: List<u64> = List::new();
    assert_eq!(empty.render(), "[]");
    let l = List::new().cons(1).cons(2).cons(3);
    assert_eq!(l.render(), "3 : 2 : 1 : []");
    let single = List::new().cons(0);
    assert_eq!(single.render(), "0 : []");
}

#[test]
fn decimal_rendering() {
    assert_eq!(u64_to_string(0), "0");
    assert_eq!(u64_to_string(7), "7");
    assert_eq!(u64_to_string(10), "10");
    assert_eq!(u64_to_string(12345), "12345");
    assert_eq!(u64_to_string(u64::MAX), "18446744073709551615");
}

#[test]
fn string_elements() {
    let l = List::new().cons(String::from("a")).cons(String::from("b"));
    assert_eq!(l.first(), Some(&String::from("b")));
    assert_eq!(l.last(), Some(&String::from("a")));
    let init = l.init().unwrap();
    assert_eq!(init.first(), Some(&String::from("b")));
    assert!(init.rest().unwrap().first().is_none());
    let both = l.append(&l);
    assert_eq!(both.first(), Some(&String::from("b")));
    assert_eq!(both.last(), Some(&String::from("a")));
}

#[test]
fn default_is_empty() {
    let l: List<u64> = List::default();
    assert!(l.first().is_none());
    assert_eq!(l.render(), "[]");
}

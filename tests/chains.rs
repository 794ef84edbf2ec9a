use std::cell::RefCell;
use std::rc::Rc;

use array_iter_tools::{ArrayIterator, ArrayUnzip, ArrayZip, IntoArrayIterator};

#[test]
fn zip() {
    let a = [1, 2, 3, 4];
    let b = [5, 6, 7, 8];
    let c = a.into_array_iter().zip(b).map(|(a, b)| a + b).collect();
    assert_eq!(c, [6, 8, 10, 12]);
}

#[test]
fn unzip() {
    let a = [0, 1, 2, 3];
    let (div, rem) = a.into_array_iter().map(|a| (a / 2, a % 2)).unzip();
    assert_eq!(div, [0, 0, 1, 1]);
    assert_eq!(rem, [0, 1, 0, 1]);
}

#[test]
fn mut_array() {
    let a = [0, 1, 2, 3];
    let mut b = [5, 6, 7, 8];
    let a = a
        .into_array_iter()
        .zip(&mut b)
        .map(|(a, b)| core::mem::replace(b, a))
        .collect();
    assert_eq!(a, [5, 6, 7, 8]);
    assert_eq!(b, [0, 1, 2, 3]);
}

/// Records its tag in a shared log when dropped.
struct DropCheck {
    tag: usize,
    log: Rc<RefCell<Vec<usize>>>,
}

impl Drop for DropCheck {
    fn drop(&mut self) {
        self.log.borrow_mut().push(self.tag);
    }
}

fn logged_four(log: &Rc<RefCell<Vec<usize>>>) -> [DropCheck; 4] {
    [0, 1, 2, 3].into_array_iter().map(|tag| DropCheck { tag, log: log.clone() }).collect()
}

fn sorted(log: &Rc<RefCell<Vec<usize>>>) -> Vec<usize> {
    let mut v = log.borrow().clone();
    v.sort();
    v
}

#[test]
fn identity_collect_keeps_order() {
    let a = [3, 1, 4, 1, 5];
    assert_eq!(a.into_array_iter().map(|x| x).collect(), [3, 1, 4, 1, 5]);
    let s = [String::from("x"), String::from("yy"), String::from("zzz")];
    let t = s.clone().into_array_iter().map(|x| x).collect();
    assert_eq!(t, s);
    assert_eq!(s.clone().into_array_iter().collect(), s);
}

#[test]
fn zip_collect_pairs_by_index() {
    let a = [1u8, 2, 3];
    let b = ['a', 'b', 'c'];
    let c = a.into_array_iter().zip(b).collect();
    assert_eq!(c, [(1, 'a'), (2, 'b'), (3, 'c')]);
}

#[test]
fn unzip_inverts_zip() {
    let a = [String::from("p"), String::from("q")];
    let b = [10u32, 20];
    let (x, y) = a.clone().into_array_iter().zip(b).map(|(a, b)| (a, b)).unzip();
    assert_eq!(x, a);
    assert_eq!(y, b);
}

#[test]
fn empty_arrays() {
    let a: [i32; 0] = [];
    let b: [u8; 0] = [];
    assert_eq!(a.into_array_iter().zip(b).map(|(x, y)| x + y as i32).collect(), []);
    let (p, q): ([i32; 0], [i32; 0]) = a.into_array_iter().map(|x| (x, x)).unzip();
    assert_eq!(p, []);
    assert_eq!(q, []);
}

#[test]
fn borrowed_source_yields_references() {
    let a = [7, 8, 9];
    let r = (&a).into_array_iter().collect();
    assert_eq!(r, [&7, &8, &9]);
    let doubled = (&a).into_array_iter().map(|x| x * 2).collect();
    assert_eq!(doubled, [14, 16, 18]);
}

#[test]
fn abandoned_owned_source_drops_the_rest_once() {
    let log = Rc::new(RefCell::new(Vec::new()));
    let mut it = logged_four(&log).into_array_iter();
    let first = it.next();
    let second = it.next();
    assert_eq!((first.tag, second.tag), (0, 1));
    drop(first);
    assert_eq!(*log.borrow(), vec![0]);
    drop(it);
    assert_eq!(sorted(&log), vec![0, 2, 3]);
    drop(second);
    assert_eq!(sorted(&log), vec![0, 1, 2, 3]);
}

#[test]
fn unpulled_owned_source_drops_everything_once() {
    let log = Rc::new(RefCell::new(Vec::new()));
    let it = logged_four(&log).into_array_iter();
    assert!(log.borrow().is_empty());
    drop(it);
    assert_eq!(sorted(&log), vec![0, 1, 2, 3]);
}

#[test]
fn consuming_chain_drops_each_element_once() {
    let log = Rc::new(RefCell::new(Vec::new()));
    let tags = logged_four(&log).into_array_iter().map(|d| d.tag * 10).collect();
    assert_eq!(tags, [0, 10, 20, 30]);
    assert_eq!(sorted(&log), vec![0, 1, 2, 3]);
}

#[test]
fn borrowed_sources_drop_nothing() {
    let log = Rc::new(RefCell::new(Vec::new()));
    let mut a = logged_four(&log);
    let tags = (&a).into_array_iter().map(|d| d.tag).collect();
    assert_eq!(tags, [0, 1, 2, 3]);
    let refs = (&mut a).into_array_iter().map(|d| {
        d.tag += 1;
        d.tag
    });
    assert_eq!(refs.collect(), [1, 2, 3, 4]);
    assert!(log.borrow().is_empty());
    drop(a);
    assert_eq!(sorted(&log), vec![1, 2, 3, 4]);
}

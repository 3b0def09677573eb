use code_management_backend::history::CommitInfo;
use code_management_backend::order::{may_precede, order_walk, text_le};

fn c(id: &str, time: i64) -> CommitInfo {
    CommitInfo::from_parts(id, None, None, None, time)
}

#[test]
fn text_order_is_the_order_of_the_dictionary() {
    assert!(text_le("", ""));
    assert!(text_le("", "a"));
    assert!(!text_le("a", ""));
    assert!(text_le("a", "a"));
    assert!(text_le("a", "b"));
    assert!(!text_le("b", "a"));
    assert!(text_le("ab", "b"));
    assert!(text_le("a", "ab"));
    assert!(!text_le("ab", "a"));
    assert!(text_le("0f", "a0"));
    assert!(text_le("z", "\u{e9}"));
    for (a, b) in [("abc", "abd"), ("", "x"), ("12", "2"), ("same", "same")] {
        assert_eq!(text_le(a, b), a <= b);
        assert_eq!(text_le(b, a), b <= a);
    }
}

#[test]
fn newer_commits_come_first() {
    assert!(may_precede(&c("z", 2), &c("a", 1)));
    assert!(!may_precede(&c("a", 1), &c("z", 2)));
    assert!(may_precede(&c("a", 1), &c("b", 1)));
    assert!(!may_precede(&c("b", 1), &c("a", 1)));
    assert!(may_precede(&c("a", 1), &c("a", 1)));
    assert!(may_precede(&c("a", -1), &c("a", -2)));
}

#[test]
fn order_walk_sorts_by_date_then_identifier() {
    let walk = vec![c("d", 1), c("b", 3), c("c", 3), c("a", 2), c("a", 3)];
    let sorted = order_walk(walk);
    assert_eq!(sorted, vec![c("a", 3), c("b", 3), c("c", 3), c("a", 2), c("d", 1)]);
}

#[test]
fn order_walk_keeps_every_commit() {
    let walk: Vec<CommitInfo> = (0..50).map(|i| c(&format!("{:02}", (i * 37) % 50), (i % 7) as i64)).collect();
    let sorted = order_walk(walk.clone());
    assert_eq!(sorted.len(), walk.len());
    for commit in &walk {
        assert_eq!(
            sorted.iter().filter(|x| *x == commit).count(),
            walk.iter().filter(|x| *x == commit).count()
        );
    }
    for pair in sorted.windows(2) {
        assert!(may_precede(&pair[0], &pair[1]));
    }
}

#[test]
fn order_walk_of_an_ordered_walk_changes_nothing() {
    let walk = vec![c("a", 3), c("b", 2), c("c", 1)];
    assert_eq!(order_walk(walk.clone()), walk);
    assert_eq!(order_walk(vec![]), vec![]);
    let same = vec![c("a", 1), c("a", 1)];
    assert_eq!(order_walk(same.clone()), same);
}

use commit_bench::commit::{copy_bytes, copy_ids, BaseCommit, Identity};
use commit_bench::oid::ObjectId;

fn id(fill: u8) -> ObjectId {
    ObjectId::from_bytes([fill; 20])
}

fn base() -> BaseCommit {
    BaseCommit::new(
        id(7),
        vec![id(1), id(2)],
        Identity::new(b"Ann Author".to_vec(), b"ann@example.com".to_vec(), 1700000000, 3600),
        Identity::new(b"Cy Committer".to_vec(), b"cy@example.com".to_vec(), 1700000100, -18000),
    )
}

#[test]
fn synthesized_commit_copies_the_base() {
    let base = base();
    let record = base.synthesize(String::from("hello"));
    assert_eq!(record.tree.bytes, [7u8; 20]);
    assert_eq!(record.parents.len(), 2);
    assert_eq!(record.parents[0].bytes, [1u8; 20]);
    assert_eq!(record.parents[1].bytes, [2u8; 20]);
    assert_eq!(record.author.name, b"Ann Author".to_vec());
    assert_eq!(record.author.email, b"ann@example.com".to_vec());
    assert_eq!(record.author.seconds, 1700000000);
    assert_eq!(record.author.offset, 3600);
    assert_eq!(record.committer.name, b"Cy Committer".to_vec());
    assert_eq!(record.committer.email, b"cy@example.com".to_vec());
    assert_eq!(record.committer.seconds, 1700000100);
    assert_eq!(record.committer.offset, -18000);
    assert_eq!(record.message, "hello");
}

#[test]
fn synthesized_commits_differ_in_the_message_only() {
    let base = base();
    let a = base.synthesize(String::from("one"));
    let b = base.synthesize(String::from("two"));
    assert_ne!(a.message, b.message);
    assert!(a.tree.same(&b.tree));
    assert_eq!(a.parents.len(), b.parents.len());
    assert_eq!(a.author.name, b.author.name);
    assert_eq!(a.committer.seconds, b.committer.seconds);
}

#[test]
fn root_commit_has_no_parents() {
    let base = BaseCommit::new(
        id(9),
        vec![],
        Identity::new(vec![], vec![], 0, 0),
        Identity::new(vec![], vec![], 0, 0),
    );
    let record = base.synthesize(String::new());
    assert!(record.parents.is_empty());
    assert_eq!(record.message, "");
}

#[test]
fn copies_keep_order_and_content() {
    assert_eq!(copy_bytes(&vec![3, 1, 2]), vec![3, 1, 2]);
    assert_eq!(copy_bytes(&vec![]), Vec::<u8>::new());
    let ids = copy_ids(&vec![id(5), id(4), id(5)]);
    assert_eq!(ids.len(), 3);
    assert_eq!(ids[0].bytes, [5u8; 20]);
    assert_eq!(ids[1].bytes, [4u8; 20]);
    assert_eq!(ids[2].bytes, [5u8; 20]);
    let copy = base().duplicate();
    assert_eq!(copy.tree.bytes, [7u8; 20]);
    assert_eq!(copy.parents.len(), 2);
    assert_eq!(copy.author.name, b"Ann Author".to_vec());
    assert_eq!(copy.committer.offset, -18000);
    let who = base().author.duplicate();
    assert_eq!(who.email, b"ann@example.com".to_vec());
    assert_eq!(who.seconds, 1700000000);
}

#[test]
fn offset_in_minutes_rounds_towards_zero() {
    let at = |offset: i32| Identity::new(vec![], vec![], 0, offset).offset_in_minutes();
    assert_eq!(at(0), 0);
    assert_eq!(at(3600), 60);
    assert_eq!(at(-18000), -300);
    assert_eq!(at(59), 0);
    assert_eq!(at(-59), 0);
    assert_eq!(at(61), 1);
    assert_eq!(at(-61), -1);
    assert_eq!(at(i32::MAX), 35791394);
    assert_eq!(at(i32::MIN), -35791394);
}

#[test]
fn offset_from_minutes_is_in_seconds() {
    let who = Identity::with_offset_minutes(b"a".to_vec(), b"b".to_vec(), 12, 90).unwrap();
    assert_eq!(who.offset, 5400);
    assert_eq!(who.name, b"a".to_vec());
    assert_eq!(who.email, b"b".to_vec());
    assert_eq!(who.seconds, 12);
    let west = Identity::with_offset_minutes(vec![], vec![], 0, -480).unwrap();
    assert_eq!(west.offset, -28800);
    assert_eq!(west.offset_in_minutes(), -480);
    assert!(Identity::with_offset_minutes(vec![], vec![], 0, 35791394).is_some());
    assert!(Identity::with_offset_minutes(vec![], vec![], 0, 35791395).is_none());
    assert!(Identity::with_offset_minutes(vec![], vec![], 0, -35791394).is_some());
    assert!(Identity::with_offset_minutes(vec![], vec![], 0, -35791395).is_none());
    assert!(Identity::with_offset_minutes(vec![], vec![], 0, i32::MIN).is_none());
}

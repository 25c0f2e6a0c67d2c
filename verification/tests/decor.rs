use logbrowse::decor::{
    decorations, push, short_tag_name, BranchRef, BranchType, Grouped, TagRef,
};
use logbrowse::record::RecordId;

fn id(seed: u8) -> RecordId {
    RecordId::from_bytes([seed; 20])
}

fn branch(name: &str, kind: BranchType, target: u8) -> BranchRef {
    BranchRef { name: Some(name.to_string()), kind, target: Some(id(target)) }
}

fn tag(name: &[u8], target: u8) -> TagRef {
    TagRef { id: id(target), name: name.to_vec() }
}

#[test]
fn push_gathers_names_by_record_in_order() {
    let mut map: Grouped<String> = Grouped::new();
    assert!(map.get(&id(1)).is_none());
    push(&mut map, id(1), "a".to_string());
    push(&mut map, id(2), "b".to_string());
    push(&mut map, id(1), "c".to_string());
    assert_eq!(map.get(&id(1)), Some(&vec!["a".to_string(), "c".to_string()]));
    assert_eq!(map.get(&id(2)), Some(&vec!["b".to_string()]));
    assert!(map.get(&id(3)).is_none());
}

#[test]
fn decorations_group_branches_and_tags() {
    let branches = vec![
        branch("main", BranchType::Local, 1),
        branch("origin/main", BranchType::Remote, 1),
        branch("topic", BranchType::Local, 2),
    ];
    let tags = vec![tag(b"refs/tags/v1.0", 1), tag(b"refs/tags/v0.9", 3), tag(b"refs/tags/latest", 1)];
    let found = decorations(&branches, &tags);
    assert_eq!(
        found.branches.get(&id(1)),
        Some(&vec![
            ("main".to_string(), BranchType::Local),
            ("origin/main".to_string(), BranchType::Remote)
        ])
    );
    assert_eq!(found.branches.get(&id(2)), Some(&vec![("topic".to_string(), BranchType::Local)]));
    assert!(found.branches.get(&id(3)).is_none());
    assert_eq!(found.tags.get(&id(1)), Some(&vec!["v1.0".to_string(), "latest".to_string()]));
    assert_eq!(found.tags.get(&id(3)), Some(&vec!["v0.9".to_string()]));
    assert!(found.tags.get(&id(2)).is_none());
}

#[test]
fn decorations_skip_branches_without_name_or_target() {
    let branches = vec![
        BranchRef { name: None, kind: BranchType::Local, target: Some(id(1)) },
        BranchRef { name: Some("head".to_string()), kind: BranchType::Remote, target: None },
        branch("kept", BranchType::Remote, 1),
    ];
    let found = decorations(&branches, &vec![]);
    assert_eq!(found.branches.get(&id(1)), Some(&vec![("kept".to_string(), BranchType::Remote)]));
    assert!(found.tags.get(&id(1)).is_none());
}

#[test]
fn decorations_of_an_empty_repository() {
    let found = decorations(&vec![], &vec![]);
    assert!(found.branches.get(&id(0)).is_none());
    assert!(found.tags.get(&id(0)).is_none());
}

#[test]
fn tag_names_that_are_not_text_get_a_replacement_character() {
    let tags = vec![tag(b"refs/tags/v\xff1", 4), tag(b"\xffrefs/tags/x", 4)];
    let found = decorations(&vec![], &tags);
    assert_eq!(
        found.tags.get(&id(4)),
        Some(&vec!["v\u{fffd}1".to_string(), "\u{fffd}refs/tags/x".to_string()])
    );
}

#[test]
fn short_tag_name_drops_the_directory_of_tags() {
    assert_eq!(short_tag_name("refs/tags/v1.0"), "v1.0");
    assert_eq!(short_tag_name("refs/tags/"), "");
    assert_eq!(short_tag_name("refs/tags/refs/tags/x"), "refs/tags/x");
    assert_eq!(short_tag_name("refs/heads/main"), "refs/heads/main");
    assert_eq!(short_tag_name("refs/tag"), "refs/tag");
    assert_eq!(short_tag_name("v1"), "v1");
    assert_eq!(short_tag_name(""), "");
}

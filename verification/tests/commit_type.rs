use conventional_commit::commit_type::{CommitType, COMMIT_TYPE_COUNT};

#[test]
fn commit_types_in_offered_order() {
    let names: Vec<&str> = CommitType::all().into_iter().map(|t| t.name()).collect();
    assert_eq!(
        names,
        vec![
            "feat", "fix", "build", "chore", "ci", "docs", "perf", "refactor", "revert", "style",
            "test",
        ]
    );
}

#[test]
fn commit_type_count_is_eleven() {
    assert_eq!(COMMIT_TYPE_COUNT, 11);
    assert_eq!(CommitType::all().len(), 11);
}

#[test]
fn first_commit_type_is_feat() {
    assert_eq!(CommitType::from_index(0), Some(CommitType::Feat));
    assert_eq!(CommitType::Feat.index(), 0);
}

#[test]
fn from_index_finds_each_type_at_its_index() {
    for (i, t) in CommitType::all().into_iter().enumerate() {
        assert_eq!(CommitType::from_index(i), Some(t));
        assert_eq!(t.index(), i);
    }
}

#[test]
fn from_index_past_the_list_is_none() {
    assert_eq!(CommitType::from_index(11), None);
    assert_eq!(CommitType::from_index(usize::MAX), None);
}

#[test]
fn last_commit_type_is_test() {
    assert_eq!(CommitType::from_index(10), Some(CommitType::Test));
    assert_eq!(CommitType::Test.name(), "test");
}

#[test]
fn commit_type_names_are_distinct() {
    let all = CommitType::all();
    for a in all.iter() {
        for b in all.iter() {
            assert_eq!(a.name() == b.name(), a == b);
        }
    }
}

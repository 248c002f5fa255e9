use mem::locator::{name_matches, until_nul, Locator, SnapshotAction, SnapshotReply};

fn search(entries: &[(&str, u32)], wanted: &str, snapshot_fails: bool) -> (Option<u32>, Vec<SnapshotAction>) {
    let (mut locator, mut action) = Locator::new(wanted.as_bytes().to_vec());
    let mut actions = Vec::new();
    let mut next = 0;
    for _ in 0..100 {
        let reply = match action {
            SnapshotAction::Finish(found) => {
                actions.push(SnapshotAction::Finish(found));
                return (found, actions);
            }
            SnapshotAction::TakeSnapshot if snapshot_fails => SnapshotReply::Failed,
            SnapshotAction::TakeSnapshot | SnapshotAction::CloseSnapshot => SnapshotReply::Done,
            SnapshotAction::FirstEntry | SnapshotAction::NextEntry => {
                if next < entries.len() {
                    let mut name = entries[next].0.as_bytes().to_vec();
                    name.resize(260, 0);
                    next += 1;
                    SnapshotReply::Entry { name, pid: entries[next - 1].1 }
                } else {
                    SnapshotReply::Failed
                }
            }
        };
        actions.push(action);
        action = locator.step(reply);
    }
    panic!("the search did not end");
}

const ENTRIES: [(&str, u32); 3] = [("a.exe", 11), ("b.exe", 22), ("c.exe", 33)];

#[test]
fn finds_process_by_name() {
    let (found, actions) = search(&ENTRIES, "b.exe", false);
    assert_eq!(found, Some(22));
    assert_eq!(
        actions,
        vec![
            SnapshotAction::TakeSnapshot,
            SnapshotAction::FirstEntry,
            SnapshotAction::NextEntry,
            SnapshotAction::CloseSnapshot,
            SnapshotAction::Finish(Some(22))
        ]
    );
}

#[test]
fn missing_process_exhausts_snapshot() {
    let (found, actions) = search(&ENTRIES, "z.exe", false);
    assert_eq!(found, None);
    assert_eq!(actions.iter().filter(|a| **a == SnapshotAction::NextEntry).count(), 3);
    assert_eq!(actions[actions.len() - 2], SnapshotAction::CloseSnapshot);
}

#[test]
fn failed_snapshot_has_nothing_to_release() {
    let (found, actions) = search(&ENTRIES, "a.exe", true);
    assert_eq!(found, None);
    assert_eq!(actions, vec![SnapshotAction::TakeSnapshot, SnapshotAction::Finish(None)]);
}

#[test]
fn names_compare_up_to_nul() {
    assert_eq!(until_nul(&b"ab\0cd".to_vec()), b"ab".to_vec());
    assert_eq!(until_nul(&b"abc".to_vec()), b"abc".to_vec());
    assert!(name_matches(&b"b.exe\0\0\0".to_vec(), &b"b.exe".to_vec()));
    assert!(!name_matches(&b"b.exe2\0".to_vec(), &b"b.exe".to_vec()));
    assert!(!name_matches(&b"b.ex\0".to_vec(), &b"b.exe".to_vec()));
    assert!(name_matches(&b"\0junk".to_vec(), &Vec::new()));
}

use gmux::git::{branch_state_for, parse_shortstat, BranchState, DiffStat, GitBranchInfo};

#[test]
fn parse_shortstat_reads_both_counts() {
    let stat = parse_shortstat(" 3 files changed, 10 insertions(+), 2 deletions(-)");
    assert_eq!(stat, DiffStat { additions: 10, deletions: 2 });
}

#[test]
fn parse_shortstat_reads_single_counts() {
    let stat = parse_shortstat(" 1 file changed, 1 insertion(+)");
    assert_eq!(stat, DiffStat { additions: 1, deletions: 0 });
    let stat = parse_shortstat(" 2 files changed, 5 deletions(-)");
    assert_eq!(stat, DiffStat { additions: 0, deletions: 5 });
}

#[test]
fn parse_shortstat_of_empty_or_noise_is_zero() {
    assert_eq!(parse_shortstat(""), DiffStat { additions: 0, deletions: 0 });
    assert_eq!(parse_shortstat("nothing to see"), DiffStat { additions: 0, deletions: 0 });
    assert_eq!(parse_shortstat(" , , "), DiffStat { additions: 0, deletions: 0 });
}

#[test]
fn parse_shortstat_ignores_numbers_that_do_not_fit() {
    let stat = parse_shortstat("99999999999999999999 insertions(+), 4 deletions(-)");
    assert_eq!(stat, DiffStat { additions: 0, deletions: 4 });
}

#[test]
fn missing_path_short_circuits_to_missing() {
    // The git probes' outcomes must not matter when the path is gone.
    let r = branch_state_for(false, true, true, Ok("main".to_string()), None);
    assert!(matches!(r, BranchState::Missing));
    let r = branch_state_for(false, false, false, Err("boom".to_string()), None);
    assert!(matches!(r, BranchState::Missing));
}

#[test]
fn non_directory_and_non_repo_get_their_states() {
    let r = branch_state_for(true, false, true, Ok("main".to_string()), None);
    match r {
        BranchState::Error(msg) => assert_eq!(msg, "not a dir"),
        other => panic!("unexpected state: {other:?}"),
    }
    let r = branch_state_for(true, true, false, Ok("main".to_string()), None);
    assert!(matches!(r, BranchState::NotGit));
}

#[test]
fn probed_branch_becomes_ready_with_diff_counts() {
    let r = branch_state_for(
        true,
        true,
        true,
        Ok("main".to_string()),
        Some(DiffStat { additions: 7, deletions: 1 }),
    );
    match r {
        BranchState::Ready(info) => {
            assert_eq!(info.name, "main");
            assert_eq!(info.additions, 7);
            assert_eq!(info.deletions, 1);
        },
        other => panic!("unexpected state: {other:?}"),
    }
    let r = branch_state_for(true, true, true, Ok("dev".to_string()), None);
    match r {
        BranchState::Ready(info) => {
            assert_eq!(info.additions, 0);
            assert_eq!(info.deletions, 0);
        },
        other => panic!("unexpected state: {other:?}"),
    }
}

#[test]
fn failed_branch_probe_becomes_error() {
    let r = branch_state_for(true, true, true, Err("git rev-parse failed".to_string()), None);
    match r {
        BranchState::Error(msg) => assert_eq!(msg, "git rev-parse failed"),
        other => panic!("unexpected state: {other:?}"),
    }
}

#[test]
fn summary_shows_only_nonzero_counts() {
    let info = GitBranchInfo { name: "main".to_string(), additions: 0, deletions: 0 };
    assert_eq!(info.summary(), "main");
    let info = GitBranchInfo { name: "main".to_string(), additions: 3, deletions: 2 };
    assert_eq!(info.summary(), "main (+3 -2)");
    let info = GitBranchInfo { name: "dev".to_string(), additions: 3, deletions: 0 };
    assert_eq!(info.summary(), "dev (+3)");
    let info = GitBranchInfo { name: "dev".to_string(), additions: 0, deletions: 12 };
    assert_eq!(info.summary(), "dev (-12)");
    let info = GitBranchInfo { name: "big".to_string(), additions: 1234567, deletions: 0 };
    assert_eq!(info.summary(), "big (+1234567)");
}

#[test]
fn status_text_covers_every_state() {
    assert_eq!(BranchState::Unknown.text(), "\u{2026}");
    assert_eq!(BranchState::Missing.text(), "missing");
    assert_eq!(BranchState::NotGit.text(), "not a repo");
    assert_eq!(BranchState::Error("oops".to_string()).text(), "oops");
    let info = GitBranchInfo { name: "main".to_string(), additions: 1, deletions: 1 };
    assert_eq!(BranchState::Ready(info).text(), "main (+1 -1)");
}

use jj_core::error_model::AnyError;
use jj_core::explode::{
    check_explodable, EvologEntry, Explode, ExplodeStep, NewCommit, NOTHING_TO_EXPLODE,
};
use jj_core::ids::CommitId;
use jj_core::user_error::{UserError, UserErrorKind};

#[derive(Clone)]
struct Commit {
    change_id: String,
    id: String,
    parents: Vec<String>,
    tree: String,
    description: String,
    predecessor: Option<String>,
}

/// A repository in memory. Identifiers are handed out in the order in which they are given.
struct Repo {
    commits: Vec<Commit>,
    ids: Vec<(String, String)>,
    at: String,
    file: String,
    operations: Vec<String>,
}

fn root_id() -> String {
    "0".repeat(8)
}

fn hex(id: &str) -> CommitId {
    CommitId { hex: id.to_string() }
}

fn message(err: &UserError) -> String {
    match &*err.error {
        AnyError::Message(text) => text.clone(),
        other => panic!("unexpected error: {:?}", other),
    }
}

impl Repo {
    /// The repository after `jj git init`, which checks out an empty commit on the root.
    fn init(ids: &[(&str, &str)]) -> Repo {
        let root = Commit {
            change_id: "zzzzzzzz".to_string(),
            id: root_id(),
            parents: vec![],
            tree: String::new(),
            description: String::new(),
            predecessor: None,
        };
        let mut repo = Repo {
            commits: vec![root],
            ids: ids.iter().rev().map(|(c, i)| (c.to_string(), i.to_string())).collect(),
            at: root_id(),
            file: String::new(),
            operations: vec![],
        };
        repo.new_commit("");
        repo
    }

    fn get(&self, id: &str) -> Commit {
        self.commits.iter().find(|c| c.id == id).unwrap().clone()
    }

    fn next_id(&mut self) -> (String, String) {
        self.ids.pop().unwrap()
    }

    fn new_commit(&mut self, description: &str) {
        self.snapshot();
        let parent = self.get(&self.at);
        let (change_id, id) = self.next_id();
        self.commits.push(Commit {
            change_id,
            id: id.clone(),
            parents: vec![parent.id],
            tree: parent.tree,
            description: description.to_string(),
            predecessor: None,
        });
        self.at = id;
    }

    fn rewrite(&mut self, tree: String, description: String) {
        let old = self.get(&self.at);
        let (_, id) = self.next_id();
        self.commits.push(Commit {
            id: id.clone(),
            tree,
            description,
            predecessor: Some(old.id.clone()),
            ..old
        });
        self.at = id;
    }

    fn snapshot(&mut self) {
        let at = self.get(&self.at);
        if self.at != root_id() && at.tree != self.file {
            self.rewrite(self.file.clone(), at.description);
        }
    }

    fn write_file(&mut self, content: &str) {
        self.file = content.to_string();
    }

    fn describe(&mut self, description: &str) {
        self.snapshot();
        let tree = self.get(&self.at).tree;
        self.rewrite(tree, description.to_string());
    }

    /// The evolution log of a commit, newest entry first.
    fn evolog(&self, id: &str) -> Vec<Commit> {
        let mut log = vec![self.get(id)];
        while let Some(predecessor) = log.last().unwrap().predecessor.clone() {
            log.push(self.get(&predecessor));
        }
        log
    }

    fn summary(&self, commit: &Commit) -> String {
        let mut words = vec![];
        if self.get(&commit.parents[0]).tree == commit.tree {
            words.push("(empty)".to_string());
        }
        if commit.description.is_empty() {
            words.push("(no description set)".to_string());
        } else {
            words.push(commit.description.clone());
        }
        words.join(" ")
    }

    fn write(&mut self, new: NewCommit<String>) -> Commit {
        let (change_id, id) = self.next_id();
        let commit = Commit {
            change_id,
            id,
            parents: new.parent_ids.iter().map(|p| p.hex.clone()).collect(),
            tree: new.tree,
            description: new.description,
            predecessor: None,
        };
        self.commits.push(commit.clone());
        commit
    }

    /// `jj explode -r <id>`: the lines on stderr, or the error.
    fn explode(&mut self, id: &str) -> Result<Vec<String>, UserError> {
        self.snapshot();
        check_explodable(&hex(id), &hex(&root_id()))?;
        let entries = self
            .evolog(id)
            .into_iter()
            .map(|c| EvologEntry { tree: c.tree, description: c.description })
            .collect();
        let parents = self.get(id).parents.iter().map(|p| hex(p)).collect();
        let mut explode = match Explode::start(parents, entries) {
            None => return Ok(vec![NOTHING_TO_EXPLODE.to_string()]),
            Some(explode) => explode,
        };
        let mut lines = vec![];
        loop {
            match explode.step() {
                ExplodeStep::Create(new, pending) => {
                    let commit = self.write(new);
                    let summary = self.summary(&commit);
                    lines.push(format!("Created {} {} {}", commit.change_id, commit.id, summary));
                    explode = pending.created(hex(&commit.id));
                }
                ExplodeStep::Finish(description) => {
                    self.operations.push(description);
                    return Ok(lines);
                }
            }
        }
    }
}

#[test]
fn test_explode_no_history() {
    let mut repo = Repo::init(&[("qpvuntsm", "e8849ae1"), ("rlvkpnrz", "0c000001")]);

    // Create a fresh commit via `jj new`: it has a single evolog entry
    repo.new_commit("");
    let at = repo.at.clone();
    assert_eq!(repo.explode(&at).unwrap(), vec!["Nothing to explode."]);
    assert!(repo.operations.is_empty());
}

#[test]
fn test_explode_with_history() {
    let mut repo = Repo::init(&[
        ("qpvuntsm", "e8849ae1"),
        ("rlvkpnrz", "0c000001"),
        ("rlvkpnrz", "0c000002"),
        ("rlvkpnrz", "0c000003"),
        ("rlvkpnrz", "0c000004"),
        ("rlvkpnrz", "d08e4bca"),
        ("zxsnswpr", "74f7d6cf"),
        ("vuyypyzk", "23e2283c"),
        ("vnkrswwx", "6baf1f5f"),
        ("rnprkorl", "1fcb2fe0"),
        ("qrrxplmp", "186904b5"),
    ]);

    // Start from a fresh commit to get predictable evolog
    repo.new_commit("");
    repo.write_file("v1\n");
    repo.describe("first version");
    repo.write_file("v2\n");
    repo.describe("second version");

    let at = repo.at.clone();
    assert_eq!(
        repo.explode(&at).unwrap(),
        vec![
            "Created zxsnswpr 74f7d6cf (empty) (no description set)",
            "Created vuyypyzk 23e2283c (no description set)",
            "Created vnkrswwx 6baf1f5f (empty) first version",
            "Created rnprkorl 1fcb2fe0 first version",
            "Created qrrxplmp 186904b5 (empty) second version",
        ]
    );
    assert_eq!(repo.operations, vec!["explode 5 commit(s) from evolution history"]);

    // Verify the chain was created in the log: each commit with its parent and summary
    let log: Vec<(String, String, String, String)> =
        ["d08e4bca", "186904b5", "1fcb2fe0", "6baf1f5f", "23e2283c", "74f7d6cf", "e8849ae1"]
            .iter()
            .map(|id| {
                let commit = repo.get(id);
                let summary = repo.summary(&commit);
                (commit.change_id, commit.id, commit.parents.join(" "), summary)
            })
            .collect();
    let expected: Vec<(String, String, String, String)> = [
        ("rlvkpnrz", "d08e4bca", "e8849ae1", "second version"),
        ("qrrxplmp", "186904b5", "1fcb2fe0", "(empty) second version"),
        ("rnprkorl", "1fcb2fe0", "6baf1f5f", "first version"),
        ("vnkrswwx", "6baf1f5f", "23e2283c", "(empty) first version"),
        ("vuyypyzk", "23e2283c", "74f7d6cf", "(no description set)"),
        ("zxsnswpr", "74f7d6cf", "e8849ae1", "(empty) (no description set)"),
        ("qpvuntsm", "e8849ae1", "00000000", "(empty) (no description set)"),
    ]
    .iter()
    .map(|(c, i, p, s)| (c.to_string(), i.to_string(), p.to_string(), s.to_string()))
    .collect();
    assert_eq!(log, expected);
    assert_eq!(repo.at, "d08e4bca");
}

#[test]
fn test_explode_specific_revision() {
    let mut repo = Repo::init(&[
        ("qpvuntsm", "e8849ae1"),
        ("rlvkpnrz", "0c000001"),
        ("rlvkpnrz", "0c000002"),
        ("rlvkpnrz", "0c000003"),
        ("rlvkpnrz", "0c000004"),
        ("rlvkpnrz", "0c000005"),
        ("royxmykx", "0c000006"),
        ("spxsnpux", "3a85e9f4"),
        ("uyxvvpyv", "8e0c7ee3"),
        ("ulkllqzl", "4579258e"),
        ("woxlrlun", "b04ccdb2"),
        ("xxroyzqx", "959d369e"),
    ]);

    // Create a commit with history
    repo.new_commit("");
    repo.write_file("v1\n");
    repo.describe("first");
    repo.write_file("v2\n");
    repo.describe("second");
    // Save the commit
    let id = repo.at.clone();
    // Move to a new commit
    repo.new_commit("child commit");

    // Explode the previous commit
    assert_eq!(
        repo.explode(&id).unwrap(),
        vec![
            "Created spxsnpux 3a85e9f4 (empty) (no description set)",
            "Created uyxvvpyv 8e0c7ee3 (no description set)",
            "Created ulkllqzl 4579258e (empty) first",
            "Created woxlrlun b04ccdb2 first",
            "Created xxroyzqx 959d369e (empty) second",
        ]
    );
}

#[test]
fn test_explode_root_commit() {
    let mut repo = Repo::init(&[("qpvuntsm", "e8849ae1")]);

    let err = repo.explode(&root_id()).unwrap_err();
    assert_eq!(format!("Error: {}", message(&err)), "Error: Cannot explode the root commit");
    assert_eq!(err.kind, UserErrorKind::User);
    assert!(err.hints.is_empty());
}

#[test]
fn test_explode_original_untouched() {
    let mut repo = Repo::init(&[
        ("qpvuntsm", "e8849ae1"),
        ("rlvkpnrz", "0c000001"),
        ("rlvkpnrz", "0c000002"),
        ("rlvkpnrz", "0c000003"),
        ("rlvkpnrz", "0c000004"),
        ("rlvkpnrz", "0c000005"),
        ("aaaaaaaa", "0e000001"),
        ("bbbbbbbb", "0e000002"),
        ("cccccccc", "0e000003"),
        ("dddddddd", "0e000004"),
        ("eeeeeeee", "0e000005"),
    ]);

    repo.new_commit("");
    repo.write_file("v1\n");
    repo.describe("first");
    repo.write_file("v2\n");
    repo.describe("second");

    // Record the commit id before explode
    let before_id = repo.at.clone();
    let before = repo.get(&before_id);

    repo.explode(&before_id).unwrap();

    // The original @ should still be the same commit
    let after_id = repo.at.clone();
    assert_eq!(before_id, after_id);
    let after = repo.get(&after_id);
    assert_eq!(before.parents, after.parents);
    assert_eq!(before.tree, after.tree);
    assert_eq!(before.description, after.description);
}

#[test]
fn explodable_unless_root() {
    assert!(check_explodable(&hex("abc"), &hex("000")).is_ok());
    assert!(check_explodable(&hex("000"), &hex("000")).is_err());
}

#[test]
fn explode_needs_two_entries() {
    let none: Vec<EvologEntry<u8>> = vec![];
    assert!(Explode::start(vec![hex("a")], none).is_none());
    let one = vec![EvologEntry { tree: 1u8, description: "x".to_string() }];
    assert!(Explode::start(vec![hex("a")], one).is_none());
    let two = vec![
        EvologEntry { tree: 2u8, description: "new".to_string() },
        EvologEntry { tree: 1u8, description: "old".to_string() },
    ];
    assert!(Explode::start(vec![hex("a")], two).is_some());
}

#[test]
fn chain_starts_on_all_parents_of_a_merge() {
    let entries = vec![
        EvologEntry { tree: 2u8, description: "new".to_string() },
        EvologEntry { tree: 1u8, description: "old".to_string() },
    ];
    let explode = Explode::start(vec![hex("p1"), hex("p2")], entries).unwrap();
    let ExplodeStep::Create(first, pending) = explode.step() else { panic!("not done yet") };
    let parents: Vec<&str> = first.parent_ids.iter().map(|p| p.hex.as_str()).collect();
    assert_eq!(parents, vec!["p1", "p2"]);
    assert_eq!((first.tree, first.description.as_str()), (1, "old"));

    let ExplodeStep::Create(second, pending) = pending.created(hex("c1")).step() else {
        panic!("not done yet")
    };
    let parents: Vec<&str> = second.parent_ids.iter().map(|p| p.hex.as_str()).collect();
    assert_eq!(parents, vec!["c1"]);
    assert_eq!((second.tree, second.description.as_str()), (2, "new"));

    let ExplodeStep::Finish(description) = pending.created(hex("c2")).step() else {
        panic!("already done")
    };
    assert_eq!(description, "explode 2 commit(s) from evolution history");
}

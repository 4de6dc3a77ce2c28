use git_reference::{
    resolved_commit, resolved_tree, ObjectId, ReferenceHandle, ResolutionError,
    INVALID_SPEC_CODE, NOT_FOUND_CODE, PEEL_CODE,
};

struct Fixture {
    repo: git2::Repository,
    blob: git2::Oid,
    tree: git2::Oid,
    commit: git2::Oid,
}

fn fixture(dir: &str) -> Fixture {
    let path = format!("/tmp/git_reference_tests/{}", dir);
    let repo = git2::Repository::init(&path).unwrap();
    let sig = git2::Signature::new("Tester", "tester@example.com", &git2::Time::new(0, 0)).unwrap();
    let blob = repo.blob(b"hello\n").unwrap();
    let tree = {
        let mut builder = repo.treebuilder(None).unwrap();
        builder.insert("hello.txt", blob, 0o100644).unwrap();
        builder.write().unwrap()
    };
    let commit = {
        let tree_obj = repo.find_tree(tree).unwrap();
        repo.commit(None, &sig, &sig, "first", &tree_obj, &[]).unwrap()
    };
    repo.reference("refs/heads/main", commit, true, "create main").unwrap();
    Fixture { repo, blob, tree, commit }
}

fn handle<'r>(repo: &'r git2::Repository, name: &str) -> ReferenceHandle<'r> {
    ReferenceHandle::from_store(repo.find_reference(name).unwrap())
}

fn same(id: &ObjectId, oid: git2::Oid) -> bool {
    id.as_bytes() == oid.as_bytes()
}

#[test]
fn name_is_the_created_name() {
    let f = fixture("name");
    let r = handle(&f.repo, "refs/heads/main");
    assert_eq!(r.name(), Some("refs/heads/main"));
    assert_eq!(r.name_bytes(), b"refs/heads/main");
}

#[test]
fn name_of_nested_branch() {
    let f = fixture("nested");
    f.repo.reference("refs/heads/feature/x", f.commit, true, "").unwrap();
    let r = handle(&f.repo, "refs/heads/feature/x");
    assert_eq!(r.name(), Some("refs/heads/feature/x"));
}

#[test]
fn target_of_direct_reference() {
    let f = fixture("direct");
    let r = handle(&f.repo, "refs/heads/main");
    let id = r.target().unwrap();
    assert!(same(&id, f.commit));
    assert!(!same(&id, f.tree));
}

#[test]
fn target_of_symbolic_reference_is_absent() {
    let f = fixture("symbolic");
    f.repo
        .reference_symbolic("refs/heads/alias", "refs/heads/main", true, "")
        .unwrap();
    let r = handle(&f.repo, "refs/heads/alias");
    assert!(r.target().is_none());
    assert_eq!(r.name(), Some("refs/heads/alias"));
}

#[test]
fn peel_direct_commit() {
    let f = fixture("peel_commit");
    let r = handle(&f.repo, "refs/heads/main");
    let c = r.peel_to_commit().ok().unwrap();
    assert!(same(&c.id(), f.commit));
    assert!(same(&c.tree_id(), f.tree));
}

#[test]
fn peel_symbolic_to_commit() {
    let f = fixture("peel_symbolic");
    f.repo
        .reference_symbolic("refs/heads/alias", "refs/heads/main", true, "")
        .unwrap();
    let r = handle(&f.repo, "refs/heads/alias");
    let c = r.peel_to_commit().ok().unwrap();
    assert!(same(&c.id(), f.commit));
}

#[test]
fn peel_annotated_tag_to_commit() {
    let f = fixture("tag");
    let sig = git2::Signature::new("Tester", "tester@example.com", &git2::Time::new(0, 0)).unwrap();
    let target = f.repo.find_object(f.commit, None).unwrap();
    let tag = f.repo.tag("v1", &target, &sig, "release", true).unwrap();
    let r = handle(&f.repo, "refs/tags/v1");
    assert!(same(&r.target().unwrap(), tag));
    assert!(!same(&r.target().unwrap(), f.commit));
    let c = r.peel_to_commit().ok().unwrap();
    assert!(same(&c.id(), f.commit));
    let t = r.peel_to_tree().ok().unwrap();
    assert!(same(&t.id(), f.tree));
}

#[test]
fn peel_blob_to_commit_fails() {
    let f = fixture("blob");
    f.repo.reference("refs/blobs/data", f.blob, true, "").unwrap();
    let r = handle(&f.repo, "refs/blobs/data");
    let e = r.peel_to_commit().err().unwrap();
    assert!(e.is_wrong_kind());
    assert_eq!(e.code(), INVALID_SPEC_CODE);
    assert!(!e.is_not_found());
    assert!(r.peel_to_tree().is_err());
}

#[test]
fn peel_dangling_symbolic_fails_not_found() {
    let f = fixture("dangling");
    f.repo
        .reference_symbolic("refs/heads/ghost", "refs/heads/missing", true, "")
        .unwrap();
    let r = handle(&f.repo, "refs/heads/ghost");
    assert!(r.target().is_none());
    let e = r.peel_to_commit().err().unwrap();
    assert!(e.is_not_found());
    assert_eq!(e.code(), NOT_FOUND_CODE);
    assert!(!e.is_wrong_kind());
}

#[test]
fn peel_to_tree_gives_commit_tree() {
    let f = fixture("peel_tree");
    let r = handle(&f.repo, "refs/heads/main");
    let c = r.peel_to_commit().ok().unwrap();
    let t = r.peel_to_tree().ok().unwrap();
    assert!(same(&t.id(), f.tree));
    assert!(c.tree_id().same_as(&t.id()));
    assert_eq!(t.as_store().id(), f.tree);
}

#[test]
fn main_branch_scenario() {
    let f = fixture("scenario");
    let r = handle(&f.repo, "refs/heads/main");
    assert_eq!(r.name(), Some("refs/heads/main"));
    assert!(same(&r.target().unwrap(), f.commit));
    assert!(same(&r.peel_to_commit().ok().unwrap().id(), f.commit));
    assert!(same(&r.peel_to_tree().ok().unwrap().id(), f.tree));
    assert_eq!(r.as_store().name(), Ok("refs/heads/main"));
}

#[test]
fn resolved_commit_keeps_store_error() {
    let r = resolved_commit(Err(git2::Error::from_str("broken")));
    let e: ResolutionError = r.err().unwrap();
    assert_eq!(e.code(), -1);
    assert!(!e.is_not_found());
    assert!(!e.is_wrong_kind());
    assert_eq!(e.into_source().message(), "broken");
}

#[test]
fn resolved_tree_wraps_tree() {
    let f = fixture("resolved_tree");
    let tree = f.repo.find_tree(f.tree).unwrap();
    let t = resolved_tree(Ok(tree)).ok().unwrap();
    assert!(same(&t.id(), f.tree));
}

#[test]
fn resolved_tree_keeps_store_error() {
    let r = resolved_tree(Err(git2::Error::from_str("gone")));
    assert_eq!(r.err().unwrap().code(), -1);
}

#[test]
fn peel_code_is_distinct() {
    assert_ne!(PEEL_CODE, INVALID_SPEC_CODE);
    assert_ne!(PEEL_CODE, NOT_FOUND_CODE);
}

#[test]
fn object_id_from_bytes() {
    let bytes: Vec<u8> = (0u8..20).collect();
    let id = ObjectId::from_bytes(&bytes).unwrap();
    assert_eq!(id.as_bytes(), &bytes[..]);
    assert!(id.same_as(&id.duplicate()));
    assert!(ObjectId::from_bytes(&bytes[..19]).is_none());
    assert!(ObjectId::from_bytes(&[]).is_none());
    let mut other = bytes.clone();
    other[19] = 99;
    assert!(!id.same_as(&ObjectId::from_bytes(&other).unwrap()));
}

#[test]
fn object_id_from_store_oid() {
    let oid = git2::Oid::from_str("0123456789abcdef0123456789abcdef01234567").unwrap();
    let id = ObjectId::from_oid(&oid);
    assert_eq!(id.as_bytes().len(), 20);
    assert_eq!(id.as_bytes()[0], 0x01);
    assert_eq!(id.as_bytes()[19], 0x67);
}

#[test]
fn handle_from_store_conversion() {
    let f = fixture("into");
    let r: ReferenceHandle = f.repo.find_reference("refs/heads/main").unwrap().into();
    assert_eq!(r.name(), Some("refs/heads/main"));
    assert!(same(&r.target().unwrap(), f.commit));
}

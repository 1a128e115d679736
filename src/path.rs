use vstd::prelude::*;

verus! {

/// The directory under `root` where the project `repo` lives: the root and
/// the handle joined by one separator (none is added after an empty root or
/// a root that already ends with one).
pub open spec fn target_path_spec(root: Seq<char>, repo: Seq<char>) -> Seq<char> {
    if root.len() == 0 || root.last() == '/' {
        root + repo
    } else {
        root + seq!['/'] + repo
    }
}

/// Joins the workspace root and the repository handle into the project's
/// local directory. Nothing on disk is consulted.
pub fn target_path(root: &str, repo: &str) -> (r: String)
    ensures
        r@ == target_path_spec(root@, repo@),
{
    let n = root.unicode_len();
    let mut r = String::from_str(root);
    if n > 0 && root.get_char(n - 1) != '/' {
        r.append("/");
        proof {
            reveal_strlit("/");
        }
    }
    r.append(repo);
    r
}

/// The hosting provider's SSH prefix: `git@github.com:`.
pub open spec fn ssh_prefix() -> Seq<char> {
    seq!['g', 'i', 't', '@', 'g', 'i', 't', 'h', 'u', 'b', '.', 'c', 'o', 'm', ':']
}

/// The hosting provider's HTTPS prefix: `https://github.com/`.
pub open spec fn https_prefix() -> Seq<char> {
    seq!['h', 't', 't', 'p', 's', ':', '/', '/', 'g', 'i', 't', 'h', 'u', 'b', '.', 'c', 'o', 'm', '/']
}

/// The locator that a fresh clone of `repo` is fetched from.
pub open spec fn remote_locator_spec(repo: Seq<char>, ssh: bool) -> Seq<char> {
    if ssh {
        ssh_prefix() + repo
    } else {
        https_prefix() + repo
    }
}

/// Builds the remote locator of `repo`: `git@github.com:<repo>` over SSH,
/// `https://github.com/<repo>` otherwise. The handle is not validated.
pub fn remote_locator(repo: &str, ssh: bool) -> (r: String)
    ensures
        r@ == remote_locator_spec(repo@, ssh),
{
    let mut r = if ssh {
        let p = "git@github.com:";
        proof {
            reveal_strlit("git@github.com:");
        }
        assert(p@ =~= ssh_prefix());
        String::from_str(p)
    } else {
        let p = "https://github.com/";
        proof {
            reveal_strlit("https://github.com/");
        }
        assert(p@ =~= https_prefix());
        String::from_str(p)
    };
    r.append(repo);
    r
}

/// The target path is the root followed by the handle: with one separator
/// between them, unless the root is empty or already ends with one.
pub proof fn target_path_nests(root: Seq<char>, repo: Seq<char>)
    ensures
        target_path_spec(root, repo).len() >= root.len() + repo.len(),
        target_path_spec(root, repo).subrange(0, root.len() as int) == root,
        target_path_spec(root, repo).subrange(
            target_path_spec(root, repo).len() - repo.len(),
            target_path_spec(root, repo).len() as int,
        ) == repo,
        root.len() > 0 && root.last() != '/' ==> target_path_spec(root, repo) == root + seq!['/'] + repo,
{
    let t = target_path_spec(root, repo);
    assert(t.subrange(0, root.len() as int) =~= root);
    assert(t.subrange(t.len() - repo.len(), t.len() as int) =~= repo);
}

} // verus!

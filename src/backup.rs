use vstd::prelude::*;
use vstd::string::*;

use crate::error::AppError;

verus! {

/// The backup name for a timestamp, followed by `n` underscores.
pub open spec fn candidate(stamp: Seq<char>, n: nat) -> Seq<char> {
    "backup_"@ + stamp + Seq::new(n, |i: int| '_')
}

pub open spec fn names_view(v: Seq<String>) -> Seq<Seq<char>> {
    v.map_values(|s: String| s@)
}

/// `id` is the first candidate for `stamp` that is not among `names`.
pub open spec fn is_fresh_id(id: Seq<char>, stamp: Seq<char>, names: Seq<Seq<char>>) -> bool {
    &&& !names.contains(id)
    &&& exists|n: nat|
        id == candidate(stamp, n) && forall|m: nat|
            m < n ==> names.contains(#[trigger] candidate(stamp, m))
}

/// The text of the empty unified store, which loads as a missing store does.
pub open spec fn empty_store_text() -> Seq<char> {
    "{}"@
}

/// What a backup file holds: the store's text, or the empty store when there was none.
pub open spec fn backup_content(store: Option<Seq<char>>) -> Seq<char> {
    match store {
        Some(t) => t,
        None => empty_store_text(),
    }
}

/// The store after importing `text`: the text itself when it parses as a unified
/// configuration, `None` (refused, nothing changes) otherwise.
pub open spec fn imported_store(text: Seq<char>, parses: bool) -> Option<Seq<char>> {
    if parses {
        Some(text)
    } else {
        None
    }
}

/// A backup to write: its id, which is also its file name, and its contents.
pub struct BackupPlan {
    pub backup_id: String,
    pub content: String,
}

/// What an import does: the backup written first, then the new store's text.
pub struct ImportPlan {
    pub backup: BackupPlan,
    pub new_store: String,
}

fn contains_name(names: &Vec<String>, name: &String) -> (r: bool)
    ensures
        r == names_view(names@).contains(name@),
{
    let n = names.len();
    let mut i: usize = 0;
    while i < n
        invariant
            n == names.len(),
            0 <= i <= n,
            forall|j: int| 0 <= j < i ==> names@[j]@ != name@,
        decreases n - i,
    {
        if names[i] == *name {
            assert(names_view(names@)[i as int] == name@);
            return true;
        }
        i += 1;
    }
    proof {
        if names_view(names@).contains(name@) {
            let j = choose|j: int| 0 <= j < n && names_view(names@)[j] == name@;
            assert(names@[j]@ == name@);
        }
    }
    false
}

/// A backup id for the timestamp `stamp` that none of `existing` has: `backup_<stamp>`,
/// with as few underscores appended as that takes.
pub fn backup_id(stamp: &str, existing: &Vec<String>) -> (r: String)
    ensures
        is_fresh_id(r@, stamp@, names_view(existing@)),
{
    let ghost names = names_view(existing@);
    let mut longest: usize = 0;
    let mut i: usize = 0;
    while i < existing.len()
        invariant
            0 <= i <= existing.len(),
            names == names_view(existing@),
            forall|j: int| 0 <= j < i ==> names[j].len() <= longest,
        decreases existing.len() - i,
    {
        let l = existing[i].as_str().unicode_len();
        if l > longest {
            longest = l;
        }
        i += 1;
    }
    let mut id = String::from_str("backup_");
    id.append(stamp);
    let ghost mut n: nat = 0;
    assert(id@ =~= candidate(stamp@, 0));
    while contains_name(existing, &id)
        invariant
            names == names_view(existing@),
            forall|j: int| 0 <= j < names.len() ==> names[j].len() <= longest,
            id@ == candidate(stamp@, n),
            forall|m: nat| m < n ==> names.contains(#[trigger] candidate(stamp@, m)),
        decreases longest + 1 - id@.len(),
    {
        proof {
            let j = choose|j: int| 0 <= j < names.len() && names[j] == id@;
            assert(names[j].len() <= longest);
            reveal_strlit("_");
        }
        let ghost prev = id@;
        id.append("_");
        proof {
            assert(id@ == prev + seq!['_']);
            assert(id@ =~= candidate(stamp@, n + 1));
            n = n + 1;
        }
    }
    id
}

/// Snapshots the store's text (`None`: there is no store) under a fresh id. A missing
/// store is recorded as the empty store `{}`, which loads as a missing store does.
pub fn create_backup(store: Option<&str>, stamp: &str, existing: &Vec<String>) -> (r: BackupPlan)
    ensures
        r.content@ == backup_content(
            match store {
                Some(t) => Some(t@),
                None => None,
            },
        ),
        is_fresh_id(r.backup_id@, stamp@, names_view(existing@)),
{
    let content = match store {
        Some(t) => String::from_str(t),
        None => String::from_str("{}"),
    };
    BackupPlan { backup_id: backup_id(stamp, existing), content }
}

/// Imports `text` as the new store, after a backup of the current one. `parses` says
/// whether `text` is a well-formed unified configuration; when it is not, the import is a
/// parse error and nothing is to be written, no backup either.
pub fn import_config(
    text: &str,
    parses: bool,
    store: Option<&str>,
    stamp: &str,
    existing: &Vec<String>,
) -> (r: Result<ImportPlan, AppError>)
    ensures
        r is Ok <==> imported_store(text@, parses) is Some,
        r matches Err(e) ==> e is Parse,
        r matches Ok(p) ==> {
            &&& imported_store(text@, parses) == Some(p.new_store@)
            &&& p.backup.content@ == backup_content(
                match store {
                    Some(t) => Some(t@),
                    None => None,
                },
            )
            &&& is_fresh_id(p.backup.backup_id@, stamp@, names_view(existing@))
        },
{
    if !parses {
        return Err(AppError::Parse(String::from_str("not a valid configuration document")));
    }
    let backup = create_backup(store, stamp, existing);
    Ok(ImportPlan { backup, new_store: String::from_str(text) })
}

/// Importing a backup right after taking it gives back the store it was taken of: the
/// same text when there was a store, the empty store when there was none.
pub proof fn lemma_backup_round_trip(store: Option<Seq<char>>)
    ensures
        store matches Some(t) ==> imported_store(backup_content(store), true) == Some(t),
        store is None ==> imported_store(backup_content(store), true) == Some(empty_store_text()),
{
}

} // verus!

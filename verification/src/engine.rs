//! Lifecycle decisions: initialization planning, unit naming, file
//! paths, the command executor's outcome, and the initialization test
//! that every operation but `init` makes first.

use vstd::prelude::*;
use vstd::string::StringExecFns;
use crate::order::str_eq;

verus! {

/// Why a lifecycle operation failed before touching anything.
#[derive(Debug, PartialEq)]
pub enum MigrationError {
    /// The changelog collection does not exist yet: `init` has not run.
    NotInitialized,
    /// A changelog record references a unit whose command file is
    /// absent on disk; the path is carried along.
    MissingFile(String),
}

/// Every operation but `init` requires the changelog collection to
/// exist; otherwise it fails without touching anything.
pub fn ensure_initialized(collection_exists: bool) -> (r: Result<(), MigrationError>)
    ensures
        r is Ok <==> collection_exists,
        !collection_exists ==> r == Err::<(), MigrationError>(MigrationError::NotInitialized),
{
    if collection_exists {
        Ok(())
    } else {
        Err(MigrationError::NotInitialized)
    }
}

/// Whether the changelog collection appears in the database's
/// collection listing.
pub fn collection_listed(names: &Vec<String>, coll: &str) -> (r: bool)
    ensures
        r == exists|i: int| 0 <= i < names@.len() && (#[trigger] names@[i])@ == coll@,
{
    let mut i: usize = 0;
    while i < names.len()
        invariant
            i <= names@.len(),
            forall|j: int| 0 <= j < i ==> (#[trigger] names@[j])@ != coll@,
        decreases names@.len() - i,
    {
        if str_eq(names[i].as_str(), coll) {
            return true;
        }
        i = i + 1;
    }
    false
}

/// What `init` has to create, given what already exists. Nothing that
/// exists is ever created again, and `init` itself cannot fail.
#[derive(Clone, Copy, Debug, PartialEq, Eq, Structural)]
pub struct InitPlan {
    pub create_dir: bool,
    pub create_coll: bool,
}

pub open spec fn spec_init_plan(dir_exists: bool, coll_exists: bool) -> InitPlan {
    InitPlan { create_dir: !dir_exists, create_coll: !coll_exists }
}

/// The world after running an `init` planned from the given state.
pub open spec fn after_init(dir_exists: bool, coll_exists: bool) -> (bool, bool) {
    (
        dir_exists || spec_init_plan(dir_exists, coll_exists).create_dir,
        coll_exists || spec_init_plan(dir_exists, coll_exists).create_coll,
    )
}

pub fn plan_init(dir_exists: bool, coll_exists: bool) -> (r: InitPlan)
    ensures
        r == spec_init_plan(dir_exists, coll_exists),
{
    InitPlan { create_dir: !dir_exists, create_coll: !coll_exists }
}

/// Law: `init` is idempotent. From any state one run leaves both the
/// root directory and the collection existing, and a second run plans
/// no creation at all — nothing errors, nothing is duplicated.
pub proof fn lemma_init_idempotent(dir_exists: bool, coll_exists: bool)
    ensures
        after_init(dir_exists, coll_exists) == (true, true),
        !spec_init_plan(true, true).create_dir,
        !spec_init_plan(true, true).create_coll,
        after_init(true, true) == after_init(dir_exists, coll_exists),
{
}

/// The digit character for one decimal digit.
pub open spec fn dec_digit(d: nat) -> char
    recommends
        d < 10,
{
    if d == 0 {
        '0'
    } else if d == 1 {
        '1'
    } else if d == 2 {
        '2'
    } else if d == 3 {
        '3'
    } else if d == 4 {
        '4'
    } else if d == 5 {
        '5'
    } else if d == 6 {
        '6'
    } else if d == 7 {
        '7'
    } else if d == 8 {
        '8'
    } else {
        '9'
    }
}

/// The decimal rendering of a number, most significant digit first.
pub open spec fn dec_str(n: nat) -> Seq<char>
    decreases n,
{
    if n < 10 {
        seq![dec_digit(n)]
    } else {
        dec_str(n / 10).push(dec_digit(n % 10))
    }
}

fn push_digit(s: &mut String, d: u64)
    requires
        d < 10,
    ensures
        final(s)@ == old(s)@.push(dec_digit(d as nat)),
{
    if d == 0 {
        s.append("0");
        proof {
            reveal_strlit("0");
            assert(s@ =~= old(s)@.push('0'));
        }
    } else if d == 1 {
        s.append("1");
        proof {
            reveal_strlit("1");
            assert(s@ =~= old(s)@.push('1'));
        }
    } else if d == 2 {
        s.append("2");
        proof {
            reveal_strlit("2");
            assert(s@ =~= old(s)@.push('2'));
        }
    } else if d == 3 {
        s.append("3");
        proof {
            reveal_strlit("3");
            assert(s@ =~= old(s)@.push('3'));
        }
    } else if d == 4 {
        s.append("4");
        proof {
            reveal_strlit("4");
            assert(s@ =~= old(s)@.push('4'));
        }
    } else if d == 5 {
        s.append("5");
        proof {
            reveal_strlit("5");
            assert(s@ =~= old(s)@.push('5'));
        }
    } else if d == 6 {
        s.append("6");
        proof {
            reveal_strlit("6");
            assert(s@ =~= old(s)@.push('6'));
        }
    } else if d == 7 {
        s.append("7");
        proof {
            reveal_strlit("7");
            assert(s@ =~= old(s)@.push('7'));
        }
    } else if d == 8 {
        s.append("8");
        proof {
            reveal_strlit("8");
            assert(s@ =~= old(s)@.push('8'));
        }
    } else {
        s.append("9");
        proof {
            reveal_strlit("9");
            assert(s@ =~= old(s)@.push('9'));
        }
    }
}

/// Renders a number in decimal.
pub fn u64_to_string(n: u64) -> (r: String)
    ensures
        r@ == dec_str(n as nat),
    decreases n,
{
    if n < 10 {
        let mut s = String::new();
        push_digit(&mut s, n);
        proof {
            assert(s@ =~= seq![dec_digit(n as nat)]);
        }
        s
    } else {
        let mut s = u64_to_string(n / 10);
        push_digit(&mut s, n % 10);
        proof {
            assert((n / 10) as nat == (n as nat) / 10);
            assert((n % 10) as nat == (n as nat) % 10);
        }
        s
    }
}

/// The full name of a unit: the creation time in unix seconds, an
/// underscore, then the caller's slug. The timestamp prefix makes the
/// lexicographic order of names the creation order.
pub fn build_name(timestamp_secs: u64, user_name: &str) -> (r: String)
    ensures
        r@ == dec_str(timestamp_secs as nat) + "_"@ + user_name@,
{
    let mut s = u64_to_string(timestamp_secs);
    s.append("_");
    s.append(user_name);
    proof {
        assert(s@ =~= dec_str(timestamp_secs as nat) + "_"@ + user_name@);
    }
    s
}

/// Relies on chrono::Utc::now for the current time in unix seconds; the
/// result depends on the clock, so nothing is stated of its value.
#[verifier::external_body]
fn now_unix_seconds() -> (t: i64) {
    chrono::Utc::now().timestamp()
}

/// The name of a unit created now. `None` only when the clock reports a
/// time before the unix epoch; otherwise the name is the current time's
/// decimal form, an underscore, and the caller's slug.
pub fn fresh_name(user_name: &str) -> (r: Option<String>)
    ensures
        r matches Some(s) ==> exists|t: nat| s@ == dec_str(t) + "_"@ + user_name@,
{
    let t = now_unix_seconds();
    if t >= 0 {
        let s = build_name(t as u64, user_name);
        proof {
            assert(s@ == dec_str(t as nat) + "_"@ + user_name@);
        }
        Some(s)
    } else {
        None
    }
}

/// The directory of one migration unit under the migration root.
pub fn unit_dir_path(root: &str, name: &str) -> (r: String)
    ensures
        r@ == root@ + "/"@ + name@,
{
    let mut s = root.to_owned();
    s.append("/");
    s.append(name);
    proof {
        assert(s@ =~= root@ + "/"@ + name@);
    }
    s
}

/// The unit's forward command file, `<root>/<name>/<name>_up.json`.
pub fn up_file_path(root: &str, name: &str) -> (r: String)
    ensures
        r@ == root@ + "/"@ + name@ + "/"@ + name@ + "_up.json"@,
{
    let mut s = unit_dir_path(root, name);
    s.append("/");
    s.append(name);
    s.append("_up.json");
    proof {
        assert(s@ =~= root@ + "/"@ + name@ + "/"@ + name@ + "_up.json"@);
    }
    s
}

/// The unit's reverse command file, `<root>/<name>/<name>_down.json`.
pub fn down_file_path(root: &str, name: &str) -> (r: String)
    ensures
        r@ == root@ + "/"@ + name@ + "/"@ + name@ + "_down.json"@,
{
    let mut s = unit_dir_path(root, name);
    s.append("/");
    s.append(name);
    s.append("_down.json");
    proof {
        assert(s@ =~= root@ + "/"@ + name@ + "/"@ + name@ + "_down.json"@);
    }
    s
}

/// The scaffold content a new unit's command files start with: a
/// placeholder description and an empty command sequence.
pub fn unit_file_template() -> (r: String)
    ensures
        r@
            == "{\n    \"description\": \"TODO: describe which changes will do this migration\",\n    \"commands\": []\n}\n"@,
{
    let t =
        "{\n    \"description\": \"TODO: describe which changes will do this migration\",\n    \"commands\": []\n}\n";
    t.to_owned()
}

/// The executor's verdict over one run of a unit's command sequence:
/// success exactly when every command succeeded, else the index of the
/// first failure — nothing after it was attempted.
pub fn execution_result(outcomes: &Vec<bool>) -> (r: Result<(), usize>)
    ensures
        r is Ok <==> (forall|i: int| 0 <= i < outcomes@.len() ==> #[trigger] outcomes@[i]),
        r matches Err(i) ==> 0 <= i < outcomes@.len() && !outcomes@[i as int] && (forall|j: int|
            0 <= j < i ==> #[trigger] outcomes@[j]),
{
    let mut i: usize = 0;
    while i < outcomes.len()
        invariant
            i <= outcomes@.len(),
            forall|j: int| 0 <= j < i ==> #[trigger] outcomes@[j],
        decreases outcomes@.len() - i,
    {
        if !outcomes[i] {
            return Err(i);
        }
        i = i + 1;
    }
    Ok(())
}

/// Relies on std::path::Path::exists to test for a file on disk; the
/// outcome depends on the state of the disk, so only the shape of the
/// error is stated.
#[verifier::external_body]
pub fn check_file(path: &str) -> (r: Result<(), MigrationError>)
    ensures
        r matches Err(e) ==> e matches MigrationError::MissingFile(p) && p@ == path@,
{
    if std::path::Path::new(path).exists() {
        Ok(())
    } else {
        Err(MigrationError::MissingFile(path.to_owned()))
    }
}

} // verus!

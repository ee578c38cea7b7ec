//! Candidate-name generation and the atomic claim loop.

use vstd::prelude::*;
use vstd::string::*;

use crate::error::{AttemptError, Error, ErrorKind};

verus! {

/// An ASCII alphanumeric character: a digit, an uppercase letter, or a
/// lowercase letter (62 symbols in all).
pub open spec fn is_alphanumeric_char(c: char) -> bool {
    (48 <= c as int && c as int <= 57)  // '0' ..= '9'
    || (65 <= c as int && c as int <= 90)  // 'A' ..= 'Z'
    || (97 <= c as int && c as int <= 122)  // 'a' ..= 'z'
}

/// The shape every generated candidate name has: `prefix`, then `rand_len`
/// alphanumeric characters, then `suffix`.
pub open spec fn is_candidate_name(
    name: Seq<char>,
    prefix: Seq<char>,
    suffix: Seq<char>,
    rand_len: nat,
) -> bool {
    &&& name.len() == prefix.len() + rand_len + suffix.len()
    &&& name.subrange(0, prefix.len() as int) == prefix
    &&& name.subrange((prefix.len() + rand_len) as int, name.len() as int) == suffix
    &&& forall|i: int|
        prefix.len() <= i < prefix.len() + rand_len ==> is_alphanumeric_char(#[trigger] name[i])
}

/// Relies on rand's `thread_rng` sampling the `Alphanumeric` distribution:
/// every sampled byte is an ASCII alphanumeric character.
#[verifier::external_body]
fn sample_alphanumeric_char() -> (r: String)
    ensures
        r@.len() == 1,
        is_alphanumeric_char(r@[0]),
{
    String::from(char::from(rand::Rng::sample(
        &mut rand::thread_rng(),
        rand::distributions::Alphanumeric,
    )))
}

/// Generate one candidate name: `prefix`, then `rand_len` characters drawn
/// from the alphanumeric alphabet, then `suffix`.
pub fn tmpname(prefix: &str, suffix: &str, rand_len: usize) -> (r: String)
    ensures
        is_candidate_name(r@, prefix@, suffix@, rand_len as nat),
{
    let mut buf = String::from_str(prefix);
    let mut i: usize = 0;
    while i < rand_len
        invariant
            i <= rand_len,
            buf@.len() == prefix@.len() + i,
            buf@.subrange(0, prefix@.len() as int) == prefix@,
            forall|j: int|
                prefix@.len() <= j < buf@.len() ==> is_alphanumeric_char(#[trigger] buf@[j]),
        decreases rand_len - i,
    {
        let c = sample_alphanumeric_char();
        buf.append(c.as_str());
        i = i + 1;
    }
    buf.append(suffix);
    proof {
        assert(buf@.subrange(0, prefix@.len() as int) == prefix@);
        assert(buf@.subrange((prefix@.len() + rand_len) as int, buf@.len() as int) == suffix@);
    }
    buf
}

/// A candidate name joined to its base directory with a separator.
pub open spec fn joined_path(base: Seq<char>, name: Seq<char>) -> Seq<char> {
    base + seq!['/'] + name
}

/// The shape every path attempted by the claim loop has: the base directory,
/// a separator, and a candidate name for the given parameters.
pub open spec fn is_candidate_path(
    p: Seq<char>,
    base: Seq<char>,
    prefix: Seq<char>,
    suffix: Seq<char>,
    rand_len: nat,
) -> bool {
    exists|name: Seq<char>|
        is_candidate_name(name, prefix, suffix, rand_len) && p == joined_path(base, name)
}

/// With a random length of zero the candidate is deterministic: the one
/// possible name is `prefix + suffix`, and the one possible path is the base
/// directory joined with it. Retrying a deterministic name can never
/// succeed, which is why the claim loop caps its budget at one attempt.
pub proof fn lemma_deterministic_candidate(
    p: Seq<char>,
    base: Seq<char>,
    prefix: Seq<char>,
    suffix: Seq<char>,
)
    requires
        is_candidate_path(p, base, prefix, suffix, 0),
    ensures
        p == joined_path(base, prefix + suffix),
{
    let name = choose|name: Seq<char>|
        is_candidate_name(name, prefix, suffix, 0) && p == joined_path(base, name);
    assert(name.subrange(0, prefix.len() as int) == prefix);
    assert(name.subrange(prefix.len() as int, name.len() as int) == suffix);
    assert(name =~= prefix + suffix);
}

fn join_path(base: &str, name: &str) -> (r: String)
    ensures
        r@ == joined_path(base@, name@),
{
    let mut buf = String::from_str(base);
    buf.append("/");
    buf.append(name);
    proof {
        reveal_strlit("/");
        assert(("/")@ =~= seq!['/']);
        assert(buf@ =~= joined_path(base@, name@));
    }
    buf
}

/// A successful claim is witnessed: some candidate path for these naming
/// parameters was handed to the attempt operation, which returned `Ok(v)`.
pub open spec fn claim_succeeded<R, F: Fn(String) -> Result<R, AttemptError>>(
    f: F,
    base: Seq<char>,
    prefix: Seq<char>,
    suffix: Seq<char>,
    rand_len: nat,
    v: R,
) -> bool {
    exists|p: String|
        {
            &&& #[trigger] call_ensures(f, (p,), Ok(v))
            &&& is_candidate_path(p@, base, prefix, suffix, rand_len)
        }
}

/// The attempt operation can report a conflict on some candidate path for
/// these naming parameters. Exhaustion is only ever reported when this
/// holds: every consumed retry was a witnessed conflict.
pub open spec fn conflict_reported<R, F: Fn(String) -> Result<R, AttemptError>>(
    f: F,
    base: Seq<char>,
    prefix: Seq<char>,
    suffix: Seq<char>,
    rand_len: nat,
) -> bool {
    exists|p: String|
        {
            &&& #[trigger] call_ensures(f, (p,), Err::<R, AttemptError>(
                AttemptError::AlreadyExists,
            ))
            &&& is_candidate_path(p@, base, prefix, suffix, rand_len)
        }
}

/// A propagated failure is witnessed: the attempt operation returned this
/// very failure message on some candidate path, and the error is annotated
/// with that path.
pub open spec fn failure_propagated<R, F: Fn(String) -> Result<R, AttemptError>>(
    f: F,
    base: Seq<char>,
    prefix: Seq<char>,
    suffix: Seq<char>,
    rand_len: nat,
    e: Error,
) -> bool {
    exists|p: String|
        {
            &&& #[trigger] call_ensures(f, (p,), Err::<R, AttemptError>(
                AttemptError::Other(e.message),
            ))
            &&& is_candidate_path(p@, base, prefix, suffix, rand_len)
            &&& e.path@ == p@
        }
}

/// The attempt operation only ever reports conflicts: no claim can succeed
/// and no other failure can arise, whatever path it is handed.
pub open spec fn always_conflicts<R, F: Fn(String) -> Result<R, AttemptError>>(f: F) -> bool {
    forall|p: String, r: Result<R, AttemptError>| #[trigger]
        call_ensures(f, (p,), r) ==> r matches Err(AttemptError::AlreadyExists)
}

/// With a random length of zero, a successful claim can only have gone
/// through the single deterministic candidate path: the base directory
/// joined with `prefix + suffix`.
pub proof fn lemma_deterministic_claim<R, F: Fn(String) -> Result<R, AttemptError>>(
    f: F,
    base: Seq<char>,
    prefix: Seq<char>,
    suffix: Seq<char>,
    v: R,
)
    requires
        claim_succeeded(f, base, prefix, suffix, 0, v),
    ensures
        exists|p: String|
            {
                &&& #[trigger] call_ensures(f, (p,), Ok(v))
                &&& p@ == joined_path(base, prefix + suffix)
            },
{
    let p = choose|p: String|
        {
            &&& #[trigger] call_ensures(f, (p,), Ok(v))
            &&& is_candidate_path(p@, base, prefix, suffix, 0)
        };
    lemma_deterministic_candidate(p@, base, prefix, suffix);
    assert(call_ensures(f, (p,), Ok(v)) && p@ == joined_path(base, prefix + suffix));
}

/// The effective retry budget: a name without a random part is
/// deterministic, so it gets exactly one attempt whatever budget is
/// configured; any other name gets the configured budget.
pub fn effective_budget(random_len: usize, num_retries: u32) -> (budget: u32)
    ensures
        budget == if random_len == 0 { 1u32 } else { num_retries },
{
    if random_len != 0 {
        num_retries
    } else {
        1
    }
}

/// Claim a unique path under `base`, with an explicit retry budget.
///
/// Each attempt generates a fresh candidate name, joins it to `base`, and
/// hands the full path to `f`, the caller's exclusive-create operation. A
/// conflict consumes one retry; any other failure is propagated at once,
/// annotated with the attempted path; when the budget is exhausted the loop
/// fails with `ErrorKind::Exhausted`, annotated with the base directory.
/// A name without a random part is deterministic, so the budget is capped
/// at a single attempt when `random_len == 0`.
#[verifier::loop_isolation(false)]
pub fn create_helper_with_retries<R, F: Fn(String) -> Result<R, AttemptError>>(
    base: &str,
    prefix: &str,
    suffix: &str,
    random_len: usize,
    num_retries: u32,
    f: F,
) -> (res: Result<R, Error>)
    requires
        num_retries >= 1,
        forall|p: String| #[trigger] call_requires(f, (p,)),
    ensures
        res matches Ok(v) ==> claim_succeeded(f, base@, prefix@, suffix@, random_len as nat, v),
        res matches Err(e) ==> e.kind != ErrorKind::AlreadyExists,
        res matches Err(e) ==> (e.kind == ErrorKind::Exhausted ==> e.path@ == base@
            && e.message@ == ("too many temporary files exist")@
            && conflict_reported::<R, F>(f, base@, prefix@, suffix@, random_len as nat)),
        res matches Err(e) ==> (e.kind == ErrorKind::Other ==> failure_propagated::<R, F>(
            f, base@, prefix@, suffix@, random_len as nat, e,
        )),
        always_conflicts::<R, F>(f) ==> (res matches Err(e) && e.kind == ErrorKind::Exhausted),
{
    let effective: u32 = effective_budget(random_len, num_retries);
    let mut attempt: u32 = 0;
    while attempt < effective
        invariant
            forall|p: String| #[trigger] call_requires(f, (p,)),
            attempt <= effective,
            attempt > 0 ==> conflict_reported::<R, F>(
                f, base@, prefix@, suffix@, random_len as nat,
            ),
        decreases effective - attempt,
    {
        let name = tmpname(prefix, suffix, random_len);
        let path = join_path(base, name.as_str());
        let path_copy = path.clone();
        proof {
            assert(is_candidate_path(path@, base@, prefix@, suffix@, random_len as nat));
        }
        match f(path) {
            Ok(v) => {
                proof {
                    assert(call_ensures(f, (path_copy,), Ok::<R, AttemptError>(v)));
                    assert(claim_succeeded(f, base@, prefix@, suffix@, random_len as nat, v));
                }
                return Ok(v);
            },
            Err(AttemptError::AlreadyExists) => {
                proof {
                    assert(call_ensures(f, (path_copy,), Err::<R, AttemptError>(
                        AttemptError::AlreadyExists,
                    )));
                    assert(conflict_reported::<R, F>(f, base@, prefix@, suffix@,
                        random_len as nat));
                }
                attempt = attempt + 1;
            },
            Err(AttemptError::Other(message)) => {
                let e = Error { kind: ErrorKind::Other, path: path_copy, message };
                proof {
                    assert(call_ensures(f, (e.path,), Err::<R, AttemptError>(
                        AttemptError::Other(e.message),
                    )));
                    assert(failure_propagated::<R, F>(f, base@, prefix@, suffix@,
                        random_len as nat, e));
                }
                return Err(e);
            },
        }
    }
    Err(
        Error {
            kind: ErrorKind::Exhausted,
            path: String::from_str(base),
            message: String::from_str("too many temporary files exist"),
        },
    )
}

/// Claim a unique path under `base` with the default retry budget.
///
/// Behaves as `create_helper_with_retries` with a budget of `NUM_RETRIES`
/// (one attempt when `random_len == 0`).
pub fn create_helper<R, F: Fn(String) -> Result<R, AttemptError>>(
    base: &str,
    prefix: &str,
    suffix: &str,
    random_len: usize,
    f: F,
) -> (res: Result<R, Error>)
    requires
        forall|p: String| #[trigger] call_requires(f, (p,)),
    ensures
        res matches Ok(v) ==> claim_succeeded(f, base@, prefix@, suffix@, random_len as nat, v),
        res matches Err(e) ==> e.kind != ErrorKind::AlreadyExists,
        res matches Err(e) ==> (e.kind == ErrorKind::Exhausted ==> e.path@ == base@
            && e.message@ == ("too many temporary files exist")@
            && conflict_reported::<R, F>(f, base@, prefix@, suffix@, random_len as nat)),
        res matches Err(e) ==> (e.kind == ErrorKind::Other ==> failure_propagated::<R, F>(
            f, base@, prefix@, suffix@, random_len as nat, e,
        )),
        always_conflicts::<R, F>(f) ==> (res matches Err(e) && e.kind == ErrorKind::Exhausted),
{
    create_helper_with_retries(base, prefix, suffix, random_len, crate::NUM_RETRIES, f)
}

} // verus!

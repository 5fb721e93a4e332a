//! Names and texts handed to the working copy: the remote's owner and name,
//! the latest release tag, tag names, references and refspecs.

use crate::text::{after_last, before_last, join, join3, last_position, name_before_or_equal, name_le, name_le_antisymmetric, name_le_skip, name_le_total,
    name_le_transitive, rfind_char, trim_end, trim_end_matches, trim_start, trim_start_matches};
use vstd::prelude::*;
use vstd::string::*;

verus! {

/// The owner and name that a remote URL with at least one `/` points at:
/// the last two segments between slashes, the owner without what precedes
/// its last `:` (the host of an scp-like URL), the name without `.git`.
pub open spec fn remote_name(url: Seq<char>) -> Seq<char> {
    after_last(after_last(before_last(url, '/'), '/'), ':') + "/"@ + trim_end(
        after_last(url, '/'),
        ".git"@,
    )
}

/// What `remote_repo` answers.
pub open spec fn remote_repo_result(url: Option<Seq<char>>) -> Result<Seq<char>, Seq<char>> {
    match url {
        None => Err("Remote repository url is not found"@),
        Some(u) => if last_position(u, '/') < 0 {
            Err("Unexpected remote repository url"@)
        } else {
            Ok(remote_name(u))
        },
    }
}

/// The view of a result that holds texts.
pub open spec fn text_result(r: Result<String, String>) -> Result<Seq<char>, Seq<char>> {
    match r {
        Ok(v) => Ok(v@),
        Err(e) => Err(e@),
    }
}

/// The view of a text that may be absent.
pub open spec fn text_option(o: Option<String>) -> Option<Seq<char>> {
    match o {
        Some(v) => Some(v@),
        None => None,
    }
}

/// What follows the last `c` in `s`.
fn tail_after(s: &str, c: char) -> (r: &str)
    ensures
        r@ == after_last(s@, c),
{
    let n: usize = s.unicode_len();
    match rfind_char(s, c) {
        Some(i) => s.substring_char(i + 1, n),
        None => s.substring_char(0, n),
    }
}

/// `owner/name` of the repository behind the URL of the remote `origin`.
/// A remote without a URL, and a URL without a `/`, are refused.
pub fn remote_repo(url: Option<&str>) -> (r: Result<String, String>)
    ensures
        text_result(r) == remote_repo_result(
            match url {
                Some(u) => Some(u@),
                None => None,
            },
        ),
{
    match url {
        None => Err(String::from_str("Remote repository url is not found")),
        Some(u) => match rfind_char(u, '/') {
            None => Err(String::from_str("Unexpected remote repository url")),
            Some(i) => {
                let front: &str = u.substring_char(0, i);
                let owner: &str = tail_after(tail_after(front, '/'), ':');
                let name: String = trim_end_matches(tail_after(u, '/'), ".git");
                Ok(join3(owner, "/", name.as_str()))
            },
        },
    }
}

/// The names that a list of tags holds.
pub open spec fn names_of(tags: Seq<String>) -> Seq<Seq<char>> {
    Seq::new(tags.len(), |i: int| tags[i]@)
}

/// The last of `names` in the order of names; of equal ones the later.
pub open spec fn latest_name(names: Seq<Seq<char>>) -> Seq<char>
    decreases names.len(),
{
    if names.len() == 0 {
        Seq::empty()
    } else if names.len() == 1 {
        names[0]
    } else if name_le(latest_name(names.drop_last()), names.last()) {
        names.last()
    } else {
        latest_name(names.drop_last())
    }
}

/// The latest name is one of the names, and none comes after it.
pub proof fn latest_name_is_greatest(names: Seq<Seq<char>>)
    requires
        names.len() > 0,
    ensures
        names.contains(latest_name(names)),
        forall|j: int| 0 <= j < names.len() ==> name_le(#[trigger] names[j], latest_name(names)),
    decreases names.len(),
{
    if names.len() == 1 {
        name_le_total(names[0], names[0]);
        assert(names[0] == latest_name(names));
    } else {
        let front = names.drop_last();
        latest_name_is_greatest(front);
        let best = latest_name(front);
        let k = choose|k: int| 0 <= k < front.len() && front[k] == best;
        assert(names[k] == best);
        name_le_total(best, names.last());
        name_le_total(names.last(), names.last());
        assert forall|j: int| 0 <= j < names.len() implies name_le(
            #[trigger] names[j],
            latest_name(names),
        ) by {
            if j < front.len() {
                assert(front[j] == names[j]);
                if name_le(best, names.last()) {
                    name_le_transitive(names[j], best, names.last());
                }
            }
        }
    }
}

/// The latest name is the only name of the list after which none comes, so
/// it does not depend on the order in which the names are listed.
pub proof fn latest_name_is_the_only_greatest(names: Seq<Seq<char>>, t: Seq<char>)
    requires
        names.contains(t),
        forall|j: int| 0 <= j < names.len() ==> name_le(#[trigger] names[j], t),
    ensures
        t == latest_name(names),
{
    latest_name_is_greatest(names);
    let best = latest_name(names);
    let i = choose|i: int| 0 <= i < names.len() && names[i] == best;
    let k = choose|k: int| 0 <= k < names.len() && names[k] == t;
    assert(name_le(names[i], t));
    assert(name_le(names[k], best));
    name_le_antisymmetric(t, best);
}

/// The latest release tag among `tags`: the last in the order of names,
/// which for names of one prefix and a timestamp of fixed width is the
/// newest. None where there is no tag.
pub fn latest_tag(tags: &Vec<String>) -> (r: Option<String>)
    ensures
        text_option(r) == (if tags@.len() == 0 {
            None
        } else {
            Some(latest_name(names_of(tags@)))
        }),
{
    let n: usize = tags.len();
    if n == 0 {
        return None;
    }
    let ghost names = names_of(tags@);
    let mut best: usize = 0;
    let mut i: usize = 1;
    assert(names.take(1).len() == 1);
    while i < n
        invariant
            n == tags@.len(),
            names == names_of(tags@),
            1 <= i <= n,
            best < i,
            tags@[best as int]@ == latest_name(names.take(i as int)),
        decreases n - i,
    {
        proof {
            assert(names.take(i + 1).drop_last() =~= names.take(i as int));
            assert(names.take(i + 1).last() == tags@[i as int]@);
        }
        if name_before_or_equal(tags[best].as_str(), tags[i].as_str()) {
            best = i;
        }
        i = i + 1;
    }
    assert(names.take(n as int) =~= names);
    Some(tags[best].clone())
}

/// The pattern that the tags of a prefix match.
pub open spec fn tag_pattern_text(prefix: Seq<char>) -> Seq<char> {
    prefix + "-*"@
}

/// The pattern that the tags of a prefix match: `{prefix}-*`.
pub fn tag_pattern(prefix: &str) -> (r: String)
    ensures
        r@ == tag_pattern_text(prefix@),
{
    join(prefix, "-*")
}

/// The name of a release tag made at a given time.
pub open spec fn release_tag_text(prefix: Seq<char>, timestamp: Seq<char>) -> Seq<char> {
    prefix + "-"@ + timestamp
}

/// The name of a release tag made at a given time: `{prefix}-{timestamp}`.
pub fn release_tag(prefix: &str, timestamp: &str) -> (r: String)
    ensures
        r@ == release_tag_text(prefix@, timestamp@),
{
    join3(prefix, "-", timestamp)
}

/// Release tags of one prefix are ordered as their timestamps are: the
/// latest name is the one with the latest timestamp, as long as the
/// timestamps are written so that their own order is that of time.
pub proof fn tag_order_follows_timestamp(prefix: Seq<char>, t1: Seq<char>, t2: Seq<char>)
    ensures
        name_le(release_tag_text(prefix, t1), release_tag_text(prefix, t2)) == name_le(t1, t2),
{
    let a = release_tag_text(prefix, t1);
    let b = release_tag_text(prefix, t2);
    let i = prefix.len() + 1;
    reveal_strlit("-");
    assert(a.subrange(i as int, a.len() as int) =~= t1);
    assert(b.subrange(i as int, b.len() as int) =~= t2);
    name_le_skip(a, b, i as int);
}

/// Whether a text is made of decimal digits only.
pub open spec fn is_digits(t: Seq<char>) -> bool {
    forall|i: int| 0 <= i < t.len() ==> 48 <= (#[trigger] t[i]) as int <= 57
}

/// Ten to the power of `n`.
pub open spec fn pow10(n: nat) -> nat
    decreases n,
{
    if n == 0 {
        1
    } else {
        10 * pow10((n - 1) as nat)
    }
}

/// The number that a text of decimal digits writes.
pub open spec fn number_of(t: Seq<char>) -> int
    decreases t.len(),
{
    if t.len() == 0 {
        0
    } else {
        (t[0] as int - 48) * pow10((t.len() - 1) as nat) + number_of(
            t.subrange(1, t.len() as int),
        )
    }
}

/// A text of `n` digits writes a number below ten to the power of `n`.
proof fn number_is_bounded(t: Seq<char>)
    requires
        is_digits(t),
    ensures
        0 <= number_of(t) < pow10(t.len()),
    decreases t.len(),
{
    if t.len() > 0 {
        let rest = t.subrange(1, t.len() as int);
        assert forall|i: int| 0 <= i < rest.len() implies 48 <= (#[trigger] rest[i]) as int
            <= 57 by {
            assert(rest[i] == t[i + 1]);
        }
        number_is_bounded(rest);
        let d = t[0] as int - 48;
        let p = pow10(rest.len()) as int;
        assert(0 <= d * p && d * p + p <= 10 * p) by (nonlinear_arith)
            requires
                0 <= d <= 9,
                0 <= p,
        ;
    }
}

/// Timestamps of one width, made of digits, are ordered as the numbers
/// they write.
pub proof fn timestamp_order_is_numeric(a: Seq<char>, b: Seq<char>)
    requires
        a.len() == b.len(),
        is_digits(a),
        is_digits(b),
    ensures
        name_le(a, b) == (number_of(a) <= number_of(b)),
    decreases a.len(),
{
    if a.len() > 0 {
        let ra = a.subrange(1, a.len() as int);
        let rb = b.subrange(1, b.len() as int);
        assert forall|i: int| 0 <= i < ra.len() implies 48 <= (#[trigger] ra[i]) as int <= 57 by {
            assert(ra[i] == a[i + 1]);
        }
        assert forall|i: int| 0 <= i < rb.len() implies 48 <= (#[trigger] rb[i]) as int <= 57 by {
            assert(rb[i] == b[i + 1]);
        }
        if a[0] == b[0] {
            timestamp_order_is_numeric(ra, rb);
        } else {
            number_is_bounded(ra);
            number_is_bounded(rb);
            let da = a[0] as int - 48;
            let db = b[0] as int - 48;
            let p = pow10(ra.len()) as int;
            if da < db {
                assert(da * p + p <= db * p) by (nonlinear_arith)
                    requires
                        da + 1 <= db,
                        0 <= p,
                ;
            } else {
                assert(db * p + p <= da * p) by (nonlinear_arith)
                    requires
                        db + 1 <= da,
                        0 <= p,
                ;
            }
        }
    }
}

/// Of two release tags with one prefix and timestamps of one width, the
/// later in the order of names is the one made later.
pub proof fn tag_order_is_that_of_time(prefix: Seq<char>, t1: Seq<char>, t2: Seq<char>)
    requires
        t1.len() == t2.len(),
        is_digits(t1),
        is_digits(t2),
    ensures
        name_le(release_tag_text(prefix, t1), release_tag_text(prefix, t2)) == (number_of(t1)
            <= number_of(t2)),
{
    tag_order_follows_timestamp(prefix, t1, t2);
    timestamp_order_is_numeric(t1, t2);
}

/// The full reference of a tag.
pub open spec fn tag_ref_text(tag: Seq<char>) -> Seq<char> {
    "refs/tags/"@ + tag
}

/// The full reference of a tag, `refs/tags/{tag}`: what resolves it, and the
/// refspec that pushes it without force.
pub fn tag_ref(tag: &str) -> (r: String)
    ensures
        r@ == tag_ref_text(tag@),
{
    join("refs/tags/", tag)
}

/// The refspec that pushes a branch over whatever the remote holds.
pub open spec fn branch_refspec_text(branch: Seq<char>) -> Seq<char> {
    "+"@ + branch + ":"@ + branch
}

/// The refspec that pushes a branch over whatever the remote holds:
/// `+{branch}:{branch}`.
pub fn branch_refspec(branch: &str) -> (r: String)
    ensures
        r@ == branch_refspec_text(branch@),
{
    join3("+", branch, ":").concat(branch)
}

/// The short name of a branch given by its full reference.
pub open spec fn short_branch_text(full: Seq<char>) -> Seq<char> {
    trim_start(full, "refs/heads/"@)
}

/// The short name of a branch given by its full reference: the reference
/// without its leading `refs/heads/`.
pub fn short_branch_name(full: &str) -> (r: String)
    ensures
        r@ == short_branch_text(full@),
{
    trim_start_matches(full, "refs/heads/")
}

} // verus!

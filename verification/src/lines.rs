//! The pure line filter applied to warm-up expansion output.
//!
//! Expanding the aggregate entry point prints every line the build tool
//! produces, except for two kinds of noise: the synthesized no-op entry
//! point body, and a fixed set of boilerplate lines that the expansion
//! tool injects on every invocation regardless of the source. Both
//! filters are defined here over sequences of characters, decoupled from
//! any I/O source, so the unverified shell only has to ask
//! [`should_forward_line`] about each line it reads.

use vstd::prelude::*;
use vstd::string::StrSliceExecFns;
use vstd::string::StringExecFns;

verus! {

/// The boilerplate prefixes injected by the expansion tool on every
/// invocation. A line starting with any of them carries no information
/// about the test source and is dropped.
pub open spec fn boilerplate_prefixes() -> Seq<Seq<char>> {
    seq![
        "#![feature(prelude_import)]"@,
        "#[prelude_import]"@,
        "use std::prelude::v1::*;"@,
        "#[macro_use]"@,
        "ext"@ + "ern crate std;"@,
    ]
}

/// The body line of the synthesized no-op aggregate entry point.
pub open spec fn entry_stub_line() -> Seq<char> {
    "fn main() {}"@
}

/// A line is boilerplate when one of the fixed prefixes starts it.
pub open spec fn line_is_boilerplate(line: Seq<char>) -> bool {
    exists|i: int|
        0 <= i < boilerplate_prefixes().len() && (#[trigger] boilerplate_prefixes()[i]).is_prefix_of(
            line,
        )
}

/// A line is the entry stub when it is exactly the no-op body.
pub open spec fn line_is_entry_stub(line: Seq<char>) -> bool {
    line == entry_stub_line()
}

/// A warm-up output line is forwarded to the user unless one of the two
/// filters drops it.
pub open spec fn line_is_forwarded(line: Seq<char>) -> bool {
    !line_is_entry_stub(line) && !line_is_boilerplate(line)
}

/// The lines of a warm-up run that reach standard output: the input
/// lines that pass both filters, unchanged and in their original order.
pub open spec fn forwarded_lines(output: Seq<Seq<char>>) -> Seq<Seq<char>> {
    output.filter(|line: Seq<char>| line_is_forwarded(line))
}

/// Whether `prefix` starts `s`, by characters.
pub fn str_has_prefix(s: &str, prefix: &str) -> (r: bool)
    ensures
        r == prefix@.is_prefix_of(s@),
{
    let n = prefix.unicode_len();
    if n > s.unicode_len() {
        return false;
    }
    let mut i: usize = 0;
    while i < n
        invariant
            i <= n,
            n == prefix@.len(),
            n <= s@.len(),
            forall|j: int| 0 <= j < i ==> s@[j] == prefix@[j],
        decreases n - i,
    {
        if s.get_char(i) != prefix.get_char(i) {
            assert(!prefix@.is_prefix_of(s@)) by {
                assert(s@[i as int] != prefix@[i as int]);
            }
            return false;
        }
        i += 1;
    }
    assert(prefix@ =~= s@.subrange(0, n as int));
    true
}

/// The boilerplate prefixes as runtime strings, in the order of
/// [`boilerplate_prefixes`].
pub fn ignored_prefixes() -> (r: Vec<String>)
    ensures
        r.deep_view() == boilerplate_prefixes(),
{
    let mut r: Vec<String> = Vec::new();
    r.push(String::from_str("#![feature(prelude_import)]"));
    r.push(String::from_str("#[prelude_import]"));
    r.push(String::from_str("use std::prelude::v1::*;"));
    r.push(String::from_str("#[macro_use]"));
    r.push(String::from_str("ext").concat("ern crate std;"));
    assert(r.deep_view() =~= boilerplate_prefixes());
    r
}

/// Whether the expansion tool injected this line: true exactly when one
/// of the fixed boilerplate prefixes starts it.
pub fn line_should_be_ignored(line: &str) -> (r: bool)
    ensures
        r == line_is_boilerplate(line@),
{
    let prefixes = ignored_prefixes();
    let n = prefixes.len();
    let mut i: usize = 0;
    while i < n
        invariant
            i <= n,
            n == prefixes@.len(),
            prefixes.deep_view() == boilerplate_prefixes(),
            forall|j: int| 0 <= j < i ==> !(#[trigger] boilerplate_prefixes()[j]).is_prefix_of(
                line@,
            ),
        decreases n - i,
    {
        if str_has_prefix(line, prefixes[i].as_str()) {
            assert(boilerplate_prefixes()[i as int].is_prefix_of(line@));
            return true;
        }
        i += 1;
    }
    false
}

/// Whether this line is exactly the no-op entry-point body.
pub fn line_is_main_stub(line: &str) -> (r: bool)
    ensures
        r == line_is_entry_stub(line@),
{
    let stub = "fn main() {}";
    if line.unicode_len() == stub.unicode_len() && str_has_prefix(line, stub) {
        assert(line@ =~= stub@);
        true
    } else {
        assert(line@ != stub@) by {
            if line@ == stub@ {
                assert(stub@.is_prefix_of(line@)) by {
                    assert(stub@ =~= line@.subrange(0, stub@.len() as int));
                }
            }
        }
        false
    }
}

/// Whether a warm-up output line is forwarded to standard output: true
/// exactly when it is neither the no-op entry-point body nor a
/// boilerplate line.
pub fn should_forward_line(line: &str) -> (r: bool)
    ensures
        r == line_is_forwarded(line@),
{
    !line_is_main_stub(line) && !line_should_be_ignored(line)
}

/// The filter pipeline over a whole captured output, decoupled from any
/// I/O source: keeps exactly the lines that [`should_forward_line`]
/// accepts, unchanged and in their original order.
pub fn filter_lines(output: &Vec<String>) -> (r: Vec<String>)
    ensures
        r.deep_view() == forwarded_lines(output.deep_view()),
{
    let ghost all = output.deep_view();
    let mut r: Vec<String> = Vec::new();
    let mut i: usize = 0;
    proof {
        reveal(Seq::filter);
        assert(r.deep_view() =~= forwarded_lines(all.subrange(0, 0)));
    }
    while i < output.len()
        invariant
            i <= output.len(),
            all == output.deep_view(),
            all.len() == output.len(),
            r.deep_view() == forwarded_lines(all.subrange(0, i as int)),
        decreases output.len() - i,
    {
        let ghost prev = r.deep_view();
        if should_forward_line(output[i].as_str()) {
            r.push(output[i].clone());
        }
        proof {
            reveal(Seq::filter);
            let pred = |line: Seq<char>| line_is_forwarded(line);
            assert(all.subrange(0, i + 1).drop_last() =~= all.subrange(0, i as int));
            assert(all.subrange(0, i + 1).last() == all[i as int]);
            if line_is_forwarded(all[i as int]) {
                assert(r.deep_view() =~= prev.push(all[i as int]));
            }
        }
        i += 1;
    }
    proof {
        assert(all.subrange(0, output.len() as int) =~= all);
    }
    r
}

/// Law: no boilerplate line and no entry-stub line is ever forwarded,
/// however often either occurs and wherever it stands in the output.
pub proof fn lemma_forwarded_lines_clean(output: Seq<Seq<char>>, k: int)
    requires
        0 <= k < forwarded_lines(output).len(),
    ensures
        !line_is_boilerplate(forwarded_lines(output)[k]),
        !line_is_entry_stub(forwarded_lines(output)[k]),
{
    let pred = |line: Seq<char>| line_is_forwarded(line);
    output.lemma_filter_pred(pred, k);
}

/// Law: every line that passes both filters is forwarded.
pub proof fn lemma_forwardable_line_kept(output: Seq<Seq<char>>, k: int)
    requires
        0 <= k < output.len(),
        line_is_forwarded(output[k]),
    ensures
        forwarded_lines(output).contains(output[k]),
{
    let pred = |line: Seq<char>| line_is_forwarded(line);
    output.lemma_filter_contains(pred, k);
}

/// Law: forwarding respects the original order of the output — the
/// forwarded lines of a concatenation are the forwarded lines of its
/// parts, concatenated.
pub proof fn lemma_forwarding_preserves_order(front: Seq<Seq<char>>, back: Seq<Seq<char>>)
    ensures
        forwarded_lines(front + back) == forwarded_lines(front) + forwarded_lines(back),
{
    let pred = |line: Seq<char>| line_is_forwarded(line);
    Seq::filter_distributes_over_add(front, back, pred);
}

/// Law: an output with nothing to drop is forwarded unchanged.
pub proof fn lemma_clean_output_unchanged(output: Seq<Seq<char>>)
    requires
        forall|k: int| 0 <= k < output.len() ==> line_is_forwarded(#[trigger] output[k]),
    ensures
        forwarded_lines(output) == output,
    decreases output.len(),
{
    reveal(Seq::filter);
    if output.len() == 0 {
        assert(forwarded_lines(output) =~= output);
    } else {
        lemma_clean_output_unchanged(output.drop_last());
        assert(forwarded_lines(output) =~= output);
    }
}

} // verus!

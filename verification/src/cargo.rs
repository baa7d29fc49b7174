//! From a confirmed selection to the invocation's argument list, and the
//! echoed command line.  Spawning the process is the surrounding layer's
//! job; it receives plain argument strings from here.

use vstd::prelude::*;
use vstd::string::*;

use crate::Action;
use crate::Target;
use crate::TargetKind;
use crate::TargetModel;

verus! {

/// Whether `c` has the Unicode white-space property, as
/// `char::is_whitespace` decides it.
pub uninterp spec fn is_unicode_whitespace(c: char) -> bool;

/// Relies on `char::is_whitespace`: true exactly for characters with the
/// Unicode white-space property.
pub assume_specification[ char::is_whitespace ](c: char) -> (r: bool)
    ensures
        r == is_unicode_whitespace(c),
;

/// An argument as the echoed command line shows it: quoted when it
/// contains whitespace.
pub open spec fn spec_quoted(a: Seq<char>) -> Seq<char> {
    if exists|i: int| 0 <= i < a.len() && is_unicode_whitespace(a[i]) {
        "\""@ + a + "\""@
    } else {
        a
    }
}

/// The arguments joined by single spaces, each quoted when needed.
pub open spec fn spec_args_joined(args: Seq<Seq<char>>) -> Seq<char>
    decreases args.len(),
{
    if args.len() == 0 {
        Seq::empty()
    } else if args.len() == 1 {
        spec_quoted(args[0])
    } else {
        spec_args_joined(args.drop_last()) + " "@ + spec_quoted(args.last())
    }
}

/// The echoed command line: the program, one space, then the arguments.
pub open spec fn spec_cmd_str(program: Seq<char>, args: Seq<Seq<char>>) -> Seq<char> {
    program + " "@ + spec_args_joined(args)
}

fn contains_whitespace(s: &str) -> (b: bool)
    ensures
        b == exists|i: int| 0 <= i < s@.len() && is_unicode_whitespace(s@[i]),
{
    let n = s.unicode_len();
    let mut k: usize = 0;
    while k < n
        invariant
            n == s@.len(),
            k <= n,
            forall|i: int| 0 <= i < k ==> !is_unicode_whitespace(s@[i]),
        decreases n - k,
    {
        let c = s.get_char(k);
        if c.is_whitespace() {
            assert(is_unicode_whitespace(s@[k as int]));
            return true;
        }
        k = k + 1;
    }
    false
}

fn quoted_arg(a: &str) -> (r: String)
    ensures
        r@ == spec_quoted(a@),
{
    if contains_whitespace(a) {
        let mut r = String::from_str("\"");
        r.append(a);
        r.append("\"");
        r
    } else {
        a.to_owned()
    }
}

/// The command line echoed before the invocation runs.
pub fn cmd_str(program: &str, args: &Vec<String>) -> (r: String)
    ensures
        r@ == spec_cmd_str(program@, args.deep_view()),
{
    let mut r = program.to_owned();
    r.append(" ");
    let mut i: usize = 0;
    while i < args.len()
        invariant
            i <= args@.len(),
            r@ == program@ + " "@ + spec_args_joined(args.deep_view().take(i as int)),
        decreases args@.len() - i,
    {
        if i > 0 {
            r.append(" ");
        }
        let q = quoted_arg(args[i].as_str());
        r.append(q.as_str());
        proof {
            let av = args.deep_view();
            assert(av.take(i + 1).drop_last() =~= av.take(i as int));
            assert(av.take(i + 1).last() == av[i as int]);
            assert(r@ =~= program@ + " "@ + spec_args_joined(av.take(i + 1)));
        }
        i = i + 1;
    }
    proof {
        assert(args.deep_view().take(args@.len() as int) =~= args.deep_view());
    }
    r
}

/// Length of the leading run of non-whitespace characters.
pub open spec fn token_len(s: Seq<char>) -> int
    decreases s.len(),
{
    if s.len() == 0 || is_unicode_whitespace(s[0]) {
        0
    } else {
        1 + token_len(s.skip(1))
    }
}

pub proof fn lemma_token_len_bounds(s: Seq<char>)
    ensures
        0 <= token_len(s) <= s.len(),
        s.len() > 0 && !is_unicode_whitespace(s[0]) ==> token_len(s) >= 1,
    decreases s.len(),
{
    if s.len() > 0 && !is_unicode_whitespace(s[0]) {
        lemma_token_len_bounds(s.skip(1));
    }
}

/// How `str::split_whitespace` tokenizes: maximal non-whitespace runs,
/// in order, empty runs dropped.
pub open spec fn spec_split_ws(s: Seq<char>) -> Seq<Seq<char>>
    decreases s.len(),
    via spec_split_ws_decreases
{
    if s.len() == 0 {
        Seq::empty()
    } else if is_unicode_whitespace(s[0]) {
        spec_split_ws(s.skip(1))
    } else {
        seq![s.take(token_len(s))] + spec_split_ws(s.skip(token_len(s)))
    }
}

#[via_fn]
proof fn spec_split_ws_decreases(s: Seq<char>) {
    if s.len() > 0 && !is_unicode_whitespace(s[0]) {
        lemma_token_len_bounds(s);
    }
}

proof fn lemma_token_len_eq(s: Seq<char>, k: int)
    requires
        0 <= k <= s.len(),
        forall|i: int| 0 <= i < k ==> !is_unicode_whitespace(s[i]),
        k == s.len() || is_unicode_whitespace(s[k]),
    ensures
        token_len(s) == k,
    decreases k,
{
    if k > 0 {
        lemma_token_len_eq(s.skip(1), k - 1);
    }
}

/// Splits on whitespace, exactly as the additional-arguments string is
/// handed to the spawned process.
pub fn split_ws(s: &str) -> (r: Vec<String>)
    ensures
        r.deep_view() == spec_split_ws(s@),
{
    let n = s.unicode_len();
    let mut r: Vec<String> = Vec::new();
    let mut p: usize = 0;
    proof {
        assert(s@.skip(0) =~= s@);
        assert(r.deep_view() + spec_split_ws(s@) =~= spec_split_ws(s@));
    }
    while p < n
        invariant
            n == s@.len(),
            p <= n,
            spec_split_ws(s@) == r.deep_view() + spec_split_ws(s@.skip(p as int)),
        decreases n - p,
    {
        let c = s.get_char(p);
        if c.is_whitespace() {
            proof {
                assert(s@.skip(p as int).skip(1) =~= s@.skip(p + 1));
            }
            p = p + 1;
        } else {
            let start = p;
            let mut q = p;
            while q < n && !s.get_char(q).is_whitespace()
                invariant
                    n == s@.len(),
                    start <= q <= n,
                    forall|i: int| start <= i < q ==> !is_unicode_whitespace(s@[i]),
                decreases n - q,
            {
                q = q + 1;
            }
            assert(q > start);
            let tok = s.substring_char(start, q).to_owned();
            let ghost prev = r.deep_view();
            r.push(tok);
            proof {
                let suffix = s@.skip(start as int);
                lemma_token_len_eq(suffix, q - start);
                assert(suffix.take(q - start) =~= s@.subrange(start as int, q as int));
                assert(suffix.skip(q - start) =~= s@.skip(q as int));
                assert(r@.len() == prev.len() + 1);
                assert(r.deep_view() =~~= prev + seq![tok@]);
                assert(spec_split_ws(suffix) == seq![tok@] + spec_split_ws(s@.skip(q as int)));
                assert(r.deep_view() + spec_split_ws(s@.skip(q as int)) =~~= prev + spec_split_ws(
                    suffix,
                ));
            }
            p = q;
        }
    }
    proof {
        assert(s@.skip(n as int) =~= Seq::<char>::empty());
        assert(r.deep_view() + spec_split_ws(s@.skip(n as int)) =~~= r.deep_view());
    }
    r
}

/// The features joined by single spaces, as one argument.
pub open spec fn spec_joined_sp(fs: Seq<Seq<char>>) -> Seq<char>
    decreases fs.len(),
{
    if fs.len() == 0 {
        Seq::empty()
    } else if fs.len() == 1 {
        fs[0]
    } else {
        spec_joined_sp(fs.drop_last()) + " "@ + fs.last()
    }
}

fn join_sp(items: &Vec<String>) -> (r: String)
    ensures
        r@ == spec_joined_sp(items.deep_view()),
{
    let mut r = String::new();
    let mut i: usize = 0;
    while i < items.len()
        invariant
            i <= items@.len(),
            r@ == spec_joined_sp(items.deep_view().take(i as int)),
        decreases items@.len() - i,
    {
        if i > 0 {
            r.append(" ");
        }
        r.append(items[i].as_str());
        proof {
            let iv = items.deep_view();
            assert(iv.take(i + 1).drop_last() =~= iv.take(i as int));
            assert(iv.take(i + 1).last() == iv[i as int]);
            assert(r@ =~= spec_joined_sp(iv.take(i + 1)));
        }
        i = i + 1;
    }
    proof {
        assert(items.deep_view().take(items@.len() as int) =~= items.deep_view());
    }
    r
}

/// The word selecting the invocation mode.
pub open spec fn spec_action_arg(a: Action) -> Seq<char> {
    if a == Action::Run {
        "run"@
    } else {
        "build"@
    }
}

/// The flag selecting the target by its kind.
pub open spec fn spec_kind_flag(k: TargetKind) -> Seq<char> {
    if k == TargetKind::Bin {
        "--bin"@
    } else {
        "--example"@
    }
}

/// The full argument list of the confirmed invocation (after the program
/// name): mode word, kind flag, target name, the required features as
/// one space-joined argument when any are declared, then the additional
/// arguments split on whitespace.
pub open spec fn spec_run_args(
    t: TargetModel,
    a: Action,
    additional: Option<Seq<char>>,
) -> Seq<Seq<char>> {
    let base = seq![spec_action_arg(a), spec_kind_flag(t.kind), t.name];
    let with_features = if t.required_features.len() == 0 {
        base
    } else {
        base + seq!["--features"@, spec_joined_sp(t.required_features)]
    };
    match additional {
        Some(s) => with_features + spec_split_ws(s),
        None => with_features,
    }
}

/// Builds the argument list for the confirmed `(target, action)` pair.
pub fn cargo_run_args(target: &Target, action: Action, additional_args: Option<String>) -> (r: Vec<
    String,
>)
    ensures
        r.deep_view() == spec_run_args(target@, action, additional_args.deep_view()),
{
    let mut args: Vec<String> = Vec::new();
    let action_word = match action {
        Action::Run => "run",
        Action::Build => "build",
    };
    let kind_flag = match target.kind {
        TargetKind::Bin => "--bin",
        TargetKind::Example => "--example",
    };
    args.push(action_word.to_owned());
    args.push(kind_flag.to_owned());
    args.push(target.name.clone());
    if target.required_features.len() > 0 {
        args.push(String::from_str("--features"));
        args.push(join_sp(&target.required_features));
    }
    proof {
        let base = seq![spec_action_arg(action), spec_kind_flag(target@.kind), target@.name];
        if target@.required_features.len() == 0 {
            assert(args.deep_view() =~~= base);
        } else {
            assert(args.deep_view() =~~= base + seq![
                "--features"@,
                spec_joined_sp(target@.required_features),
            ]);
        }
    }
    match additional_args {
        Some(s) => {
            let ghost pre = args.deep_view();
            let mut extra = split_ws(s.as_str());
            args.append(&mut extra);
            proof {
                assert(args.deep_view() =~~= pre + spec_split_ws(s@));
            }
        },
        None => {},
    }
    args
}

/// Builds one selectable target from the plain values the metadata
/// collaborator extracted: the name, whether the unit is a binary
/// (otherwise an example), the source path when one could be made
/// project-relative, and the required capabilities.
pub fn build_target(
    name: String,
    is_bin: bool,
    path: Option<String>,
    required_features: Vec<String>,
) -> (t: Target)
    ensures
        t@.name == name@,
        t@.kind == if is_bin {
            TargetKind::Bin
        } else {
            TargetKind::Example
        },
        t@.path == match path {
            Some(p) => p@,
            None => "-"@,
        },
        t@.required_features == required_features.deep_view(),
{
    let kind = if is_bin {
        TargetKind::Bin
    } else {
        TargetKind::Example
    };
    let path_str = match path {
        Some(p) => p,
        None => String::from_str("-"),
    };
    Target { name, kind, path: path_str, required_features }
}

} // verus!

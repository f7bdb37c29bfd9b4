//! Parsing one compile invocation's argument sequence into a structured
//! descriptor: crate name, crate type, extra-filename disambiguator and
//! dependency output directory.

use vstd::prelude::*;
use vstd::string::*;

verus! {

/// Why a compile task had to be rejected instead of planned.
///
/// All of these are fatal: a wrong or missing crate name or crate type would
/// make the synthesized fingerprint path wrong with no diagnostic, so the
/// run is aborted rather than guessing.
#[derive(Clone, Copy, Debug, PartialEq, Eq, Structural)]
pub enum InvocationError {
    /// A `--crate-name` or `--crate-type` flag stood last in the argument
    /// sequence, with no value token after it.
    MissingValue,
    /// An `extra-filename...` or `dependency...` token carried no `=`.
    MissingSeparator,
    /// After parsing, no crate name was found in the argument sequence.
    MissingCrateName,
    /// After parsing, no crate type was found in the argument sequence.
    MissingCrateType,
}

/// The structured record extracted from the flat argument sequence of one
/// compile invocation. Every field defaults to the empty string when the
/// corresponding token is absent.
#[derive(Clone, Debug)]
pub struct InvocationDescriptor {
    pub crate_name: String,
    pub crate_type: String,
    pub extra_filename: String,
    pub dependency_dir: String,
}

/// Mathematical model of an `InvocationDescriptor`: each field as a
/// sequence of characters.
pub ghost struct DescriptorView {
    pub crate_name: Seq<char>,
    pub crate_type: Seq<char>,
    pub extra_filename: Seq<char>,
    pub dependency_dir: Seq<char>,
}

impl View for InvocationDescriptor {
    type V = DescriptorView;

    open spec fn view(&self) -> DescriptorView {
        DescriptorView {
            crate_name: self.crate_name@,
            crate_type: self.crate_type@,
            extra_filename: self.extra_filename@,
            dependency_dir: self.dependency_dir@,
        }
    }
}

/// The descriptor before any token has been scanned.
pub open spec fn empty_descriptor() -> DescriptorView {
    DescriptorView {
        crate_name: Seq::<char>::empty(),
        crate_type: Seq::<char>::empty(),
        extra_filename: Seq::<char>::empty(),
        dependency_dir: Seq::<char>::empty(),
    }
}

/// Index of the first `=` in `t`, or `t.len()` when `t` holds none.
pub open spec fn first_eq_index(t: Seq<char>) -> int
    decreases t.len(),
{
    if t.len() == 0 {
        0
    } else if t[0] == '=' {
        0
    } else {
        1 + first_eq_index(t.drop_first())
    }
}

/// Whether `t` holds an `=` at all.
pub open spec fn has_eq(t: Seq<char>) -> bool {
    first_eq_index(t) < t.len()
}

/// Everything after the first `=` of `t`: the value half of a `key=value`
/// token.
pub open spec fn value_after_eq(t: Seq<char>) -> Seq<char> {
    t.subrange(first_eq_index(t) + 1, t.len() as int)
}

/// Whether `p` is a prefix of `t`.
pub open spec fn is_prefix(p: Seq<char>, t: Seq<char>) -> bool {
    p.len() <= t.len() && t.subrange(0, p.len() as int) == p
}

/// The first `=` of `t` sits exactly where a left-to-right search that found
/// no `=` before position `k` says it sits.
pub proof fn lemma_first_eq_index_is(t: Seq<char>, k: int)
    requires
        0 <= k <= t.len(),
        forall|j: int| 0 <= j < k ==> t[j] != '=',
        k < t.len() ==> t[k] == '=',
    ensures
        first_eq_index(t) == k,
    decreases t.len(),
{
    if t.len() == 0 {
    } else if t[0] == '=' {
        assert(k == 0);
    } else {
        assert(k >= 1) by {
            if k == 0 {
                assert(t[0] == '=');
            }
        }
        assert forall|j: int| 0 <= j < k - 1 implies t.drop_first()[j] != '=' by {
            assert(t.drop_first()[j] == t[j + 1]);
        }
        assert(k - 1 < t.drop_first().len() ==> t.drop_first()[k - 1] == '=');
        lemma_first_eq_index_is(t.drop_first(), k - 1);
    }
}

/// One left-to-right pass over the argument tokens, from position `i` on,
/// starting from the fields already recorded in `acc`.
///
/// A token equal to `--crate-name` or `--crate-type` takes the next token as
/// the field's value (a later occurrence overwrites an earlier one); a token
/// starting with `extra-filename` or `dependency` is split on its first `=`;
/// every other token is ignored. A flag with no following token, or a
/// key-value token with no `=`, stops the scan with an error.
pub open spec fn scan(args: Seq<Seq<char>>, i: int, acc: DescriptorView) -> Result<
    DescriptorView,
    InvocationError,
>
    decreases args.len() - i,
{
    if i < 0 || i >= args.len() {
        Ok(acc)
    } else {
        let t = args[i];
        if t == "--crate-name"@ || t == "--crate-type"@ {
            if i + 1 >= args.len() {
                Err(InvocationError::MissingValue)
            } else if t == "--crate-name"@ {
                scan(
                    args,
                    i + 1,
                    DescriptorView {
                        crate_name: args[i + 1],
                        crate_type: acc.crate_type,
                        extra_filename: acc.extra_filename,
                        dependency_dir: acc.dependency_dir,
                    },
                )
            } else {
                scan(
                    args,
                    i + 1,
                    DescriptorView {
                        crate_name: acc.crate_name,
                        crate_type: args[i + 1],
                        extra_filename: acc.extra_filename,
                        dependency_dir: acc.dependency_dir,
                    },
                )
            }
        } else if is_prefix("extra-filename"@, t) {
            if !has_eq(t) {
                Err(InvocationError::MissingSeparator)
            } else {
                scan(
                    args,
                    i + 1,
                    DescriptorView {
                        crate_name: acc.crate_name,
                        crate_type: acc.crate_type,
                        extra_filename: value_after_eq(t),
                        dependency_dir: acc.dependency_dir,
                    },
                )
            }
        } else if is_prefix("dependency"@, t) {
            if !has_eq(t) {
                Err(InvocationError::MissingSeparator)
            } else {
                scan(
                    args,
                    i + 1,
                    DescriptorView {
                        crate_name: acc.crate_name,
                        crate_type: acc.crate_type,
                        extra_filename: acc.extra_filename,
                        dependency_dir: value_after_eq(t),
                    },
                )
            }
        } else {
            scan(args, i + 1, acc)
        }
    }
}

/// The post-processing step: a `build_script_build` crate carries no
/// explicit crate type, so the cache convention's literal `build-script` is
/// forced in.
pub open spec fn finish_descriptor(d: DescriptorView) -> DescriptorView {
    if d.crate_name == "build_script_build"@ {
        DescriptorView {
            crate_name: d.crate_name,
            crate_type: "build-script"@,
            extra_filename: d.extra_filename,
            dependency_dir: d.dependency_dir,
        }
    } else {
        d
    }
}

/// What parsing a whole argument sequence yields: the scan of every token
/// from an empty descriptor, then the build-script override.
pub open spec fn parsed_descriptor(args: Seq<Seq<char>>) -> Result<
    DescriptorView,
    InvocationError,
> {
    match scan(args, 0, empty_descriptor()) {
        Ok(d) => Ok(finish_descriptor(d)),
        Err(e) => Err(e),
    }
}

proof fn lemma_scan_keeps_crate_name(args: Seq<Seq<char>>, k: int, acc: DescriptorView)
    requires
        forall|j: int| k <= j < args.len() ==> args[j] != "--crate-name"@,
    ensures
        scan(args, k, acc) matches Ok(d) ==> d.crate_name == acc.crate_name,
    decreases args.len() - k,
{
    if k < 0 || k >= args.len() {
    } else {
        let t = args[k];
        assert(t != "--crate-name"@);
        if t == "--crate-type"@ {
            if k + 1 < args.len() {
                lemma_scan_keeps_crate_name(
                    args,
                    k + 1,
                    DescriptorView {
                        crate_name: acc.crate_name,
                        crate_type: args[k + 1],
                        extra_filename: acc.extra_filename,
                        dependency_dir: acc.dependency_dir,
                    },
                );
            }
        } else if is_prefix("extra-filename"@, t) {
            if has_eq(t) {
                lemma_scan_keeps_crate_name(
                    args,
                    k + 1,
                    DescriptorView {
                        crate_name: acc.crate_name,
                        crate_type: acc.crate_type,
                        extra_filename: value_after_eq(t),
                        dependency_dir: acc.dependency_dir,
                    },
                );
            }
        } else if is_prefix("dependency"@, t) {
            if has_eq(t) {
                lemma_scan_keeps_crate_name(
                    args,
                    k + 1,
                    DescriptorView {
                        crate_name: acc.crate_name,
                        crate_type: acc.crate_type,
                        extra_filename: acc.extra_filename,
                        dependency_dir: value_after_eq(t),
                    },
                );
            }
        } else {
            lemma_scan_keeps_crate_name(args, k + 1, acc);
        }
    }
}

proof fn lemma_scan_crate_name_from(args: Seq<Seq<char>>, k: int, acc: DescriptorView, i: int)
    requires
        0 <= k <= i,
        i + 1 < args.len(),
        args[i] == "--crate-name"@,
        forall|j: int| i < j < args.len() ==> args[j] != "--crate-name"@,
    ensures
        scan(args, k, acc) matches Ok(d) ==> d.crate_name == args[i + 1],
    decreases i - k,
{
    let t = args[k];
    if k == i {
        lemma_scan_keeps_crate_name(
            args,
            i + 1,
            DescriptorView {
                crate_name: args[i + 1],
                crate_type: acc.crate_type,
                extra_filename: acc.extra_filename,
                dependency_dir: acc.dependency_dir,
            },
        );
    } else if t == "--crate-name"@ {
        lemma_scan_crate_name_from(
            args,
            k + 1,
            DescriptorView {
                crate_name: args[k + 1],
                crate_type: acc.crate_type,
                extra_filename: acc.extra_filename,
                dependency_dir: acc.dependency_dir,
            },
            i,
        );
    } else if t == "--crate-type"@ {
        lemma_scan_crate_name_from(
            args,
            k + 1,
            DescriptorView {
                crate_name: acc.crate_name,
                crate_type: args[k + 1],
                extra_filename: acc.extra_filename,
                dependency_dir: acc.dependency_dir,
            },
            i,
        );
    } else if is_prefix("extra-filename"@, t) {
        if has_eq(t) {
            lemma_scan_crate_name_from(
                args,
                k + 1,
                DescriptorView {
                    crate_name: acc.crate_name,
                    crate_type: acc.crate_type,
                    extra_filename: value_after_eq(t),
                    dependency_dir: acc.dependency_dir,
                },
                i,
            );
        }
    } else if is_prefix("dependency"@, t) {
        if has_eq(t) {
            lemma_scan_crate_name_from(
                args,
                k + 1,
                DescriptorView {
                    crate_name: acc.crate_name,
                    crate_type: acc.crate_type,
                    extra_filename: acc.extra_filename,
                    dependency_dir: value_after_eq(t),
                },
                i,
            );
        }
    } else {
        lemma_scan_crate_name_from(args, k + 1, acc, i);
    }
}

/// Law: the crate name extracted is exactly the token after the (last)
/// `--crate-name` flag, whatever noise tokens stand around it and in
/// whatever order. Stated for the last occurrence of the flag, since a
/// later occurrence overwrites an earlier one in the single left-to-right
/// pass.
pub proof fn lemma_crate_name_extraction(args: Seq<Seq<char>>, i: int)
    requires
        0 <= i,
        i + 1 < args.len(),
        args[i] == "--crate-name"@,
        forall|j: int| i < j < args.len() ==> args[j] != "--crate-name"@,
    ensures
        parsed_descriptor(args) matches Ok(d) ==> d.crate_name == args[i + 1],
{
    lemma_scan_crate_name_from(args, 0, empty_descriptor(), i);
}

proof fn lemma_scan_keeps_crate_type(args: Seq<Seq<char>>, k: int, acc: DescriptorView)
    requires
        forall|j: int| k <= j < args.len() ==> args[j] != "--crate-type"@,
    ensures
        scan(args, k, acc) matches Ok(d) ==> d.crate_type == acc.crate_type,
    decreases args.len() - k,
{
    if k < 0 || k >= args.len() {
    } else {
        let t = args[k];
        assert(t != "--crate-type"@);
        if t == "--crate-name"@ {
            if k + 1 < args.len() {
                lemma_scan_keeps_crate_type(
                    args,
                    k + 1,
                    DescriptorView {
                        crate_name: args[k + 1],
                        crate_type: acc.crate_type,
                        extra_filename: acc.extra_filename,
                        dependency_dir: acc.dependency_dir,
                    },
                );
            }
        } else if is_prefix("extra-filename"@, t) {
            if has_eq(t) {
                lemma_scan_keeps_crate_type(
                    args,
                    k + 1,
                    DescriptorView {
                        crate_name: acc.crate_name,
                        crate_type: acc.crate_type,
                        extra_filename: value_after_eq(t),
                        dependency_dir: acc.dependency_dir,
                    },
                );
            }
        } else if is_prefix("dependency"@, t) {
            if has_eq(t) {
                lemma_scan_keeps_crate_type(
                    args,
                    k + 1,
                    DescriptorView {
                        crate_name: acc.crate_name,
                        crate_type: acc.crate_type,
                        extra_filename: acc.extra_filename,
                        dependency_dir: value_after_eq(t),
                    },
                );
            }
        } else {
            lemma_scan_keeps_crate_type(args, k + 1, acc);
        }
    }
}

proof fn lemma_scan_crate_type_from(args: Seq<Seq<char>>, k: int, acc: DescriptorView, i: int)
    requires
        0 <= k <= i,
        i + 1 < args.len(),
        args[i] == "--crate-type"@,
        forall|j: int| i < j < args.len() ==> args[j] != "--crate-type"@,
    ensures
        scan(args, k, acc) matches Ok(d) ==> d.crate_type == args[i + 1],
    decreases i - k,
{
    reveal_strlit("--crate-name");
    reveal_strlit("--crate-type");
    assert(("--crate-name"@)[8] != ("--crate-type"@)[8]);
    let t = args[k];
    if k == i {
        lemma_scan_keeps_crate_type(
            args,
            i + 1,
            DescriptorView {
                crate_name: acc.crate_name,
                crate_type: args[i + 1],
                extra_filename: acc.extra_filename,
                dependency_dir: acc.dependency_dir,
            },
        );
    } else if t == "--crate-name"@ {
        lemma_scan_crate_type_from(
            args,
            k + 1,
            DescriptorView {
                crate_name: args[k + 1],
                crate_type: acc.crate_type,
                extra_filename: acc.extra_filename,
                dependency_dir: acc.dependency_dir,
            },
            i,
        );
    } else if t == "--crate-type"@ {
        lemma_scan_crate_type_from(
            args,
            k + 1,
            DescriptorView {
                crate_name: acc.crate_name,
                crate_type: args[k + 1],
                extra_filename: acc.extra_filename,
                dependency_dir: acc.dependency_dir,
            },
            i,
        );
    } else if is_prefix("extra-filename"@, t) {
        if has_eq(t) {
            lemma_scan_crate_type_from(
                args,
                k + 1,
                DescriptorView {
                    crate_name: acc.crate_name,
                    crate_type: acc.crate_type,
                    extra_filename: value_after_eq(t),
                    dependency_dir: acc.dependency_dir,
                },
                i,
            );
        }
    } else if is_prefix("dependency"@, t) {
        if has_eq(t) {
            lemma_scan_crate_type_from(
                args,
                k + 1,
                DescriptorView {
                    crate_name: acc.crate_name,
                    crate_type: acc.crate_type,
                    extra_filename: acc.extra_filename,
                    dependency_dir: value_after_eq(t),
                },
                i,
            );
        }
    } else {
        lemma_scan_crate_type_from(args, k + 1, acc, i);
    }
}

/// Law: the crate type extracted is exactly the token after the (last)
/// `--crate-type` flag, whatever noise tokens stand around it — except for
/// a `build_script_build` crate, whose type the post-processing overrides.
pub proof fn lemma_crate_type_extraction(args: Seq<Seq<char>>, i: int)
    requires
        0 <= i,
        i + 1 < args.len(),
        args[i] == "--crate-type"@,
        forall|j: int| i < j < args.len() ==> args[j] != "--crate-type"@,
    ensures
        parsed_descriptor(args) matches Ok(d) ==> d.crate_name == "build_script_build"@
            || d.crate_type == args[i + 1],
{
    lemma_scan_crate_type_from(args, 0, empty_descriptor(), i);
}

/// Law: whenever parsing succeeds with crate name `build_script_build`, the
/// crate type is the literal `build-script`, overriding any parsed value.
pub proof fn lemma_build_script_crate_type(args: Seq<Seq<char>>)
    ensures
        (match parsed_descriptor(args) {
            Ok(d) => d.crate_name == "build_script_build"@ ==> d.crate_type == "build-script"@,
            Err(_) => true,
        }),
{
}

/// Whether `p` names a prefix of `s`, decided character by character.
fn has_prefix(s: &str, p: &str) -> (r: bool)
    ensures
        r == is_prefix(p@, s@),
{
    let np = p.unicode_len();
    let ns = s.unicode_len();
    if np > ns {
        return false;
    }
    let mut j: usize = 0;
    while j < np
        invariant
            j <= np,
            np <= ns,
            np == p@.len(),
            ns == s@.len(),
            forall|k: int| 0 <= k < j ==> s@[k] == p@[k],
        decreases np - j,
    {
        if s.get_char(j) != p.get_char(j) {
            assert(!is_prefix(p@, s@)) by {
                if is_prefix(p@, s@) {
                    assert(s@.subrange(0, p@.len() as int)[j as int] == s@[j as int]);
                }
            }
            return false;
        }
        j += 1;
    }
    assert(s@.subrange(0, p@.len() as int) =~= p@);
    true
}

/// Position of the first `=` in `s`, if any.
fn find_first_eq(s: &str) -> (r: Option<usize>)
    ensures
        match r {
            Some(j) => j < s@.len() && first_eq_index(s@) == j,
            None => first_eq_index(s@) == s@.len(),
        },
{
    let n = s.unicode_len();
    let mut j: usize = 0;
    while j < n
        invariant
            j <= n,
            n == s@.len(),
            forall|k: int| 0 <= k < j ==> s@[k] != '=',
        decreases n - j,
    {
        if s.get_char(j) == '=' {
            proof {
                lemma_first_eq_index_is(s@, j as int);
            }
            return Some(j);
        }
        j += 1;
    }
    proof {
        lemma_first_eq_index_is(s@, n as int);
    }
    None
}

/// Everything after the first `=` of `s`, which must hold one.
fn split_value(s: &str) -> (r: Result<String, InvocationError>)
    ensures
        match r {
            Ok(v) => has_eq(s@) && v@ == value_after_eq(s@),
            Err(e) => !has_eq(s@) && e == InvocationError::MissingSeparator,
        },
{
    let n = s.unicode_len();
    match find_first_eq(s) {
        None => Err(InvocationError::MissingSeparator),
        Some(j) => {
            let tail = s.substring_char(j + 1, n);
            Ok(String::from_str(tail))
        },
    }
}

/// Extract the invocation descriptor from the flat, ordered argument
/// sequence of one compile invocation, in a single left-to-right pass.
///
/// The result is exactly what [`parsed_descriptor`] says of the sequence:
/// the value after the last `--crate-name` (resp. `--crate-type`) flag, the
/// value halves of the last `extra-filename...` and `dependency...` tokens,
/// the empty string for each field whose token is absent, and the
/// `build-script` crate-type override for `build_script_build`. A flag with
/// no following token, or a key-value token with no `=`, is a fatal error.
pub fn parse_arguments(args: &Vec<String>) -> (r: Result<InvocationDescriptor, InvocationError>)
    ensures
        match r {
            Ok(d) => parsed_descriptor(args.deep_view()) == Ok::<DescriptorView, InvocationError>(
                d@,
            ),
            Err(e) => parsed_descriptor(args.deep_view()) == Err::<DescriptorView, InvocationError>(
                e,
            ),
        },
{
    let crate_name_flag = String::from_str("--crate-name");
    let crate_type_flag = String::from_str("--crate-type");
    let extra_prefix = String::from_str("extra-filename");
    let dependency_prefix = String::from_str("dependency");
    let mut crate_name = String::new();
    let mut crate_type = String::new();
    let mut extra_filename = String::new();
    let mut dependency_dir = String::new();
    let n = args.len();
    let mut i: usize = 0;
    while i < n
        invariant
            i <= n,
            n == args@.len(),
            crate_name_flag@ == "--crate-name"@,
            crate_type_flag@ == "--crate-type"@,
            extra_prefix@ == "extra-filename"@,
            dependency_prefix@ == "dependency"@,
            scan(args.deep_view(), 0, empty_descriptor()) == scan(
                args.deep_view(),
                i as int,
                DescriptorView {
                    crate_name: crate_name@,
                    crate_type: crate_type@,
                    extra_filename: extra_filename@,
                    dependency_dir: dependency_dir@,
                },
            ),
        decreases n - i,
    {
        proof {
            assert(args.deep_view().len() == args@.len());
            assert(args.deep_view()[i as int] == args@[i as int]@);
        }
        let arg = &args[i];
        if *arg == crate_name_flag {
            if i + 1 >= n {
                return Err(InvocationError::MissingValue);
            }
            proof {
                assert(args.deep_view()[i as int + 1] == args@[i as int + 1]@);
            }
            crate_name = args[i + 1].clone();
        } else if *arg == crate_type_flag {
            if i + 1 >= n {
                return Err(InvocationError::MissingValue);
            }
            proof {
                assert(args.deep_view()[i as int + 1] == args@[i as int + 1]@);
            }
            crate_type = args[i + 1].clone();
        } else if has_prefix(arg.as_str(), extra_prefix.as_str()) {
            match split_value(arg.as_str()) {
                Ok(v) => {
                    extra_filename = v;
                },
                Err(e) => {
                    return Err(e);
                },
            }
        } else if has_prefix(arg.as_str(), dependency_prefix.as_str()) {
            match split_value(arg.as_str()) {
                Ok(v) => {
                    dependency_dir = v;
                },
                Err(e) => {
                    return Err(e);
                },
            }
        }
        i += 1;
    }
    let build_script_name = String::from_str("build_script_build");
    let mut descriptor = InvocationDescriptor { crate_name, crate_type, extra_filename, dependency_dir };
    if descriptor.crate_name == build_script_name {
        descriptor.crate_type = String::from_str("build-script");
    }
    Ok(descriptor)
}

} // verus!

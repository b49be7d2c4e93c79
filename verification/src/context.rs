//! The process-wide WASI environment plan.
//!
//! The shared WASI context inherits the host's stdio streams and
//! environment and preopens the current working directory under the guest
//! path `/`; assembling those handles happens at the host edge. What is
//! decided here is the guest's argv: a conventional module name first,
//! then every host command-line argument after the first `--` separator.

use vstd::prelude::*;

use vstd::string::StringExecFns;

verus! {

/// The guest path the preopened working directory appears under.
pub open spec fn preopen_guest_path_spec() -> Seq<char> {
    "/"@
}

/// Returns the guest path of the preopened directory.
pub fn preopen_guest_path() -> (s: &'static str)
    ensures
        s@ == preopen_guest_path_spec(),
{
    "/"
}

/// The conventional guest name of the running module, used as argv[0].
pub open spec fn module_argv0() -> Seq<char> {
    "this.wasm"@
}

/// Returns the conventional guest name of the running module.
pub fn module_name() -> (s: &'static str)
    ensures
        s@ == module_argv0(),
{
    "this.wasm"
}

/// The arguments after the first `--` separator; every one of them,
/// later separators included. Without a separator nothing is forwarded.
pub open spec fn args_after_separator(args: Seq<Seq<char>>) -> Seq<Seq<char>>
    decreases args.len(),
{
    if args.len() == 0 {
        Seq::empty()
    } else if args[0] == "--"@ {
        args.drop_first()
    } else {
        args_after_separator(args.drop_first())
    }
}

/// Everything before the first separator is dropped: if the first `--`
/// stands at `k`, what follows it is forwarded; if none occurs, nothing
/// is.
proof fn lemma_after_separator_at(args: Seq<Seq<char>>, k: int)
    requires
        0 <= k <= args.len(),
        forall|j: int| 0 <= j < k ==> args[j] != "--"@,
    ensures
        k == args.len() ==> args_after_separator(args) == Seq::<Seq<char>>::empty(),
        k < args.len() && args[k] == "--"@ ==> args_after_separator(args) == args.skip(k + 1),
    decreases k,
{
    if k == 0 {
        if 0 < args.len() && args[0] == "--"@ {
            assert(args.drop_first() =~= args.skip(1));
        }
    } else {
        assert(args[0] != "--"@);
        lemma_after_separator_at(args.drop_first(), k - 1);
        assert(args_after_separator(args) == args_after_separator(args.drop_first()));
        if k == args.len() {
            assert(args.drop_first().len() == k - 1);
        } else if args[k] == "--"@ {
            assert(args.drop_first()[k - 1] == args[k]);
            assert(args.drop_first().skip(k) =~= args.skip(k + 1));
        }
    }
}

/// Builds guest argv from the host's command-line arguments: the
/// conventional module name, then everything after the first `--`.
pub fn guest_argv(host_args: &Vec<String>) -> (argv: Vec<String>)
    ensures
        argv.deep_view() == seq![module_argv0()] + args_after_separator(host_args.deep_view()),
{
    let ghost h = host_args.deep_view();
    proof {
        assert(h.len() == host_args@.len());
    }
    let mut argv: Vec<String> = Vec::new();
    argv.push(String::from_str("this.wasm"));
    proof {
        assert(argv.deep_view() =~= seq![module_argv0()]);
    }
    let n = host_args.len();
    let sep = String::from_str("--");
    let mut s: usize = 0;
    while s < n && !(host_args[s] == sep)
        invariant
            n == host_args.len(),
            h == host_args.deep_view(),
            h.len() == n,
            0 <= s <= n,
            sep@ == "--"@,
            forall|j: int| 0 <= j < s ==> h[j] != "--"@,
        decreases n - s,
    {
        proof {
            assert(h[s as int] == host_args@[s as int]@);
        }
        s = s + 1;
    }
    proof {
        assert(s < n ==> h[s as int] == "--"@);
        lemma_after_separator_at(h, s as int);
    }
    let mut i: usize = if s < n {
        s + 1
    } else {
        n
    };
    let ghost start = i as int;
    proof {
        assert(argv.deep_view() =~= seq![module_argv0()] + h.subrange(start, start));
    }
    while i < n
        invariant
            n == host_args.len(),
            h == host_args.deep_view(),
            h.len() == n,
            0 <= start <= i <= n,
            argv.deep_view() == seq![module_argv0()] + h.subrange(start, i as int),
        decreases n - i,
    {
        let ghost prev_dv = argv.deep_view();
        let x = host_args[i].clone();
        proof {
            assert(x@ == h[i as int]);
        }
        argv.push(x);
        proof {
            assert(argv.deep_view().len() == prev_dv.len() + 1);
            assert forall|j: int| 0 <= j < argv.deep_view().len() implies argv.deep_view()[j] == (
            seq![module_argv0()] + h.subrange(start, i + 1))[j] by {
                let rhs = seq![module_argv0()] + h.subrange(start, i + 1);
                if j == 0 {
                    assert(argv.deep_view()[j] == prev_dv[j]);
                    assert(prev_dv[j] == module_argv0());
                    assert(rhs[j] == module_argv0());
                } else if j < prev_dv.len() {
                    assert(argv.deep_view()[j] == prev_dv[j]);
                    assert(prev_dv[j] == h.subrange(start, i as int)[j - 1]);
                    assert(h.subrange(start, i as int)[j - 1] == h[start + j - 1]);
                    assert(rhs[j] == h.subrange(start, i + 1)[j - 1]);
                    assert(h.subrange(start, i + 1)[j - 1] == h[start + j - 1]);
                } else {
                    assert(argv.deep_view()[j] == h[i as int]);
                    assert(rhs[j] == h.subrange(start, i + 1)[j - 1]);
                    assert(j - 1 == i - start);
                    assert(h.subrange(start, i + 1)[i - start] == h[i as int]);
                }
            }
            assert(argv.deep_view() =~= seq![module_argv0()] + h.subrange(start, i + 1));
        }
        i = i + 1;
    }
    proof {
        assert(h.subrange(start, n as int) =~= args_after_separator(h));
    }
    argv
}

} // verus!

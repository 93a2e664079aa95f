//! Options for compiling a move package dir: paths, the resolved
//! named-address table, and the bytecode version.

use vstd::prelude::*;
use crate::address::{account_arg_bytes, account_arg_ok, load_account_arg, AccountAddress,
    AccountAddressWrapper};
use crate::cli_error::CliError;
use crate::utils::dir_default_to_current;

verus! {

/// No two entries of the table share a key.
pub open spec fn keys_unique(t: Seq<(String, AccountAddressWrapper)>) -> bool {
    forall|j1: int, j2: int|
        0 <= j1 < j2 < t.len() ==> (#[trigger] t[j1]).0@ != (#[trigger] t[j2]).0@
}

/// The table realizes the mathematical map `m`: keys are unique, every
/// entry is in `m` with its value, and every key of `m` appears.
pub open spec fn table_models(
    t: Seq<(String, AccountAddressWrapper)>,
    m: Map<Seq<char>, Seq<u8>>,
) -> bool {
    &&& keys_unique(t)
    &&& forall|j: int|
        0 <= j < t.len() ==> m.dom().contains((#[trigger] t[j]).0@) && m[t[j].0@]
            == t[j].1.account_address@ && t[j].1.account_address.wf()
    &&& forall|k: Seq<char>|
        m.dom().contains(k) ==> exists|j: int| 0 <= j < t.len() && (#[trigger] t[j]).0@ == k
}

/// The views of a vector of string pairs.
pub open spec fn pair_views(p: Seq<(String, String)>) -> Seq<(Seq<char>, Seq<char>)> {
    p.map_values(|pr: (String, String)| (pr.0@, pr.1@))
}

/// Whether every value of the pair list is an acceptable account argument.
pub open spec fn all_args_ok(pairs: Seq<(Seq<char>, Seq<char>)>) -> bool {
    forall|i: int| 0 <= i < pairs.len() ==> account_arg_ok((#[trigger] pairs[i]).1)
}

/// The map the pair list resolves to: every name bound to the address of
/// its last occurrence.
pub open spec fn resolved_map(pairs: Seq<(Seq<char>, Seq<char>)>) -> Map<Seq<char>, Seq<u8>>
    decreases pairs.len(),
{
    if pairs.len() == 0 {
        Map::<Seq<char>, Seq<u8>>::empty()
    } else {
        resolved_map(pairs.drop_last()).insert(pairs.last().0, account_arg_bytes(pairs.last().1))
    }
}

/// Resolves parsed `name=value` pairs into a named-address table.
///
/// Resolution is all-or-nothing: the first value that is not an
/// acceptable account argument rejects the whole list. A repeated name
/// keeps the address of its last occurrence.
pub fn resolve_named_addresses(pairs: &Vec<(String, String)>) -> (r: Result<
    Vec<(String, AccountAddressWrapper)>,
    CliError,
>)
    ensures
        r is Ok <==> all_args_ok(pair_views(pairs@)),
        r is Ok ==> table_models(r->Ok_0@, resolved_map(pair_views(pairs@))),
        r is Err ==> r->Err_0 is CommandArgumentError,
{
    let ghost views = pair_views(pairs@);
    let mut table: Vec<(String, AccountAddressWrapper)> = Vec::new();
    let ghost mut m = Map::<Seq<char>, Seq<u8>>::empty();
    let mut i: usize = 0;
    proof {
        assert(views.subrange(0, 0) =~= Seq::<(Seq<char>, Seq<char>)>::empty());
        assert(m =~~= resolved_map(views.subrange(0, 0)));
    }
    while i < pairs.len()
        invariant
            0 <= i <= pairs@.len(),
            views == pair_views(pairs@),
            table_models(table@, m),
            m == resolved_map(views.subrange(0, i as int)),
            forall|k: int| 0 <= k < i ==> account_arg_ok((#[trigger] views[k]).1),
        decreases pairs@.len() - i,
    {
        let value = &pairs[i].1;
        let addr = match load_account_arg(value.as_str()) {
            Ok(a) => a,
            Err(e) => {
                proof {
                    assert(!account_arg_ok(views[i as int].1));
                }
                return Err(e);
            },
        };
        let key: String = pairs[i].0.clone();
        let wrapper = AccountAddressWrapper { account_address: addr };
        let ghost oldt = table@;
        let ghost oldm = m;
        // Overwrite an existing binding of the same name, else append.
        let mut j: usize = 0;
        let mut found = false;
        while j < table.len() && !found
            invariant
                0 <= j <= table@.len(),
                table@ == oldt,
                key@ == views[i as int].0,
                !found ==> forall|k: int| 0 <= k < j ==> (#[trigger] table@[k]).0@ != key@,
                found ==> j < table@.len() && table@[j as int].0@ == key@,
            decreases table@.len() - j + (if found { 0int } else { 1int }),
        {
            if table[j].0 == key {
                found = true;
            } else {
                j = j + 1;
            }
        }
        proof {
            m = oldm.insert(key@, addr@);
        }
        if found {
            table.set(j, (key, wrapper));
        } else {
            table.push((key, wrapper));
        }
        proof {
            let newt = table@;
            assert forall|j1: int, j2: int| 0 <= j1 < j2 < newt.len() implies (
            #[trigger] newt[j1]).0@ != (#[trigger] newt[j2]).0@ by {
                if found {
                } else {
                    if j2 == newt.len() - 1 {
                        assert(newt[j1] == oldt[j1]);
                    }
                }
            }
            assert forall|jj: int| 0 <= jj < newt.len() implies m.dom().contains(
                (#[trigger] newt[jj]).0@,
            ) && m[newt[jj].0@] == newt[jj].1.account_address@ && newt[jj].1.account_address.wf() by {
                if found {
                    if jj != j {
                        assert(newt[jj] == oldt[jj]);
                        assert(oldt[jj].0@ != key@);
                    }
                } else {
                    if jj < newt.len() - 1 {
                        assert(newt[jj] == oldt[jj]);
                    }
                }
            }
            assert forall|k: Seq<char>| m.dom().contains(k) implies exists|jj: int|
                0 <= jj < newt.len() && (#[trigger] newt[jj]).0@ == k by {
                if k == key@ {
                    if found {
                        assert(newt[j as int].0@ == k);
                    } else {
                        assert(newt[newt.len() - 1].0@ == k);
                    }
                } else {
                    assert(oldm.dom().contains(k));
                    let jj = choose|jj: int| 0 <= jj < oldt.len() && (#[trigger] oldt[jj]).0@ == k;
                    assert(newt[jj].0@ == k);
                }
            }
            assert(views.subrange(0, i + 1).drop_last() =~= views.subrange(0, i as int));
            assert(views.subrange(0, i + 1).last() == views[i as int]);
            assert(m =~~= resolved_map(views.subrange(0, i + 1)));
        }
        i = i + 1;
    }
    proof {
        assert(views.subrange(0, views.len() as int) =~= views);
    }
    Ok(table)
}

/// Options for compiling a move package dir.
pub struct MovePackageDir {
    /// Path to a move package (the folder with a Move.toml file).
    pub package_dir: Option<String>,
    /// Path to save the compiled move package; defaults to
    /// `<package_dir>/build`.
    pub output_dir: Option<String>,
    /// Named addresses for the move binary, keys unique.
    pub named_addresses: Vec<(String, AccountAddressWrapper)>,
    /// Skip pulling the latest git dependencies.
    pub skip_fetch_latest_git_deps: bool,
    /// The version of the bytecode the compiler is going to emit.
    pub bytecode_version: Option<u32>,
}

impl MovePackageDir {
    /// The named-address table always keeps its keys unique.
    pub open spec fn wf(&self) -> bool {
        keys_unique(self.named_addresses@)
    }

    /// A fresh set of options for the given package directory: no output
    /// override, no named addresses, dependency fetching skipped, no
    /// explicit bytecode version.
    pub fn new(package_dir: String) -> (r: Self)
        ensures
            r.package_dir == Some(package_dir),
            r.output_dir is None,
            r.named_addresses@.len() == 0,
            r.skip_fetch_latest_git_deps,
            r.bytecode_version is None,
            r.wf(),
    {
        MovePackageDir {
            package_dir: Some(package_dir),
            output_dir: None,
            named_addresses: Vec::new(),
            skip_fetch_latest_git_deps: true,
            bytecode_version: None,
        }
    }

    /// The package path: the explicit directory, else the caller-observed
    /// current directory, else an unexpected-error failure.
    pub fn get_package_path(&self, current_dir: Option<String>) -> (r: Result<String, CliError>)
        ensures
            self.package_dir is Some ==> r is Ok && r->Ok_0@ == self.package_dir->0@,
            self.package_dir is None && current_dir is Some ==> r is Ok && r->Ok_0
                == current_dir->0,
            self.package_dir is None && current_dir is None ==> r is Err && r->Err_0
                is UnexpectedError,
    {
        let dir: Option<String> = match &self.package_dir {
            Some(d) => Some(d.clone()),
            None => None,
        };
        dir_default_to_current(dir, current_dir)
    }

    /// Retrieve the named addresses, with each wrapper reduced to its
    /// resolved account address.
    pub fn named_addresses(&self) -> (r: Vec<(String, AccountAddress)>)
        ensures
            r@.len() == self.named_addresses@.len(),
            forall|j: int|
                0 <= j < r@.len() ==> (#[trigger] r@[j]).0@ == self.named_addresses@[j].0@
                    && r@[j].1@ == self.named_addresses@[j].1.account_address@,
    {
        let mut out: Vec<(String, AccountAddress)> = Vec::new();
        let mut j: usize = 0;
        while j < self.named_addresses.len()
            invariant
                0 <= j <= self.named_addresses@.len(),
                out@.len() == j,
                forall|k: int|
                    0 <= k < j ==> (#[trigger] out@[k]).0@ == self.named_addresses@[k].0@
                        && out@[k].1@ == self.named_addresses@[k].1.account_address@,
            decreases self.named_addresses@.len() - j,
        {
            let key = self.named_addresses[j].0.clone();
            let addr = self.named_addresses[j].1.account_address.duplicate();
            out.push((key, addr));
            j = j + 1;
        }
        out
    }

    /// The bytecode version to emit: the explicit choice, or the
    /// process-wide default `5`.
    pub fn bytecode_version_or_detault(&self) -> (r: u32)
        ensures
            self.bytecode_version is Some ==> r == self.bytecode_version->0,
            self.bytecode_version is None ==> r == 5,
    {
        match self.bytecode_version {
            Some(v) => v,
            None => 5,
        }
    }

    /// Binds `key` to the address `value` resolves to, replacing any
    /// existing binding of the same name.
    pub fn add_named_address(&mut self, key: String, value: String)
        requires
            account_arg_ok(value@),
            old(self).wf(),
        ensures
            final(self).wf(),
            final(self).package_dir == old(self).package_dir,
            final(self).output_dir == old(self).output_dir,
            final(self).skip_fetch_latest_git_deps == old(self).skip_fetch_latest_git_deps,
            final(self).bytecode_version == old(self).bytecode_version,
            exists|j: int|
                0 <= j < final(self).named_addresses@.len()
                && (#[trigger] final(self).named_addresses@[j]).0@ == key@
                && final(self).named_addresses@[j].1.account_address@ == account_arg_bytes(value@),
            forall|j: int|
                0 <= j < old(self).named_addresses@.len()
                && (#[trigger] old(self).named_addresses@[j]).0@ != key@ ==> exists|j2: int|
                    0 <= j2 < final(self).named_addresses@.len()
                    && final(self).named_addresses@[j2] == old(self).named_addresses@[j],
    {
        let addr = match load_account_arg(value.as_str()) {
            Ok(a) => a,
            Err(_) => {
                // Unreachable: `value` is an acceptable account argument.
                proof {
                    assert(false);
                }
                vstd::pervasive::unreached()
            },
        };
        let wrapper = AccountAddressWrapper { account_address: addr };
        let ghost oldt = self.named_addresses@;
        let mut j: usize = 0;
        let mut found = false;
        while j < self.named_addresses.len() && !found
            invariant
                0 <= j <= self.named_addresses@.len(),
                self.named_addresses@ == oldt,
                !found ==> forall|k: int| 0 <= k < j ==> (#[trigger] oldt[k]).0@ != key@,
                found ==> j < oldt.len() && oldt[j as int].0@ == key@,
            decreases oldt.len() - j + (if found { 0int } else { 1int }),
        {
            if self.named_addresses[j].0 == key {
                found = true;
            } else {
                j = j + 1;
            }
        }
        if found {
            self.named_addresses.set(j, (key, wrapper));
            proof {
                let newt = self.named_addresses@;
                assert(newt == oldt.update(j as int, newt[j as int]));
                assert forall|j1: int, j2: int| 0 <= j1 < j2 < newt.len() implies (
                #[trigger] newt[j1]).0@ != (#[trigger] newt[j2]).0@ by {}
                assert forall|jj: int|
                    0 <= jj < oldt.len() && (#[trigger] oldt[jj]).0@ != key@ implies exists|j2: int|
                    0 <= j2 < newt.len() && newt[j2] == oldt[jj] by {
                    assert(newt[jj] == oldt[jj]);
                }
            }
        } else {
            self.named_addresses.push((key, wrapper));
            proof {
                let newt = self.named_addresses@;
                assert(newt[newt.len() - 1].0@ == key@);
                assert forall|j1: int, j2: int| 0 <= j1 < j2 < newt.len() implies (
                #[trigger] newt[j1]).0@ != (#[trigger] newt[j2]).0@ by {
                    if j2 == newt.len() - 1 {
                        assert(newt[j1] == oldt[j1]);
                    }
                }
                assert forall|jj: int|
                    0 <= jj < oldt.len() && (#[trigger] oldt[jj]).0@ != key@ implies exists|j2: int|
                    0 <= j2 < newt.len() && newt[j2] == oldt[jj] by {
                    assert(newt[jj] == oldt[jj]);
                }
            }
        }
    }
}

} // verus!

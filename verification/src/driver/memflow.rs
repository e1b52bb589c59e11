//! The Memflow driver: validation of the connector parameters.
use vstd::prelude::*;

use crate::api::params::{DriverInitParams, MemflowConnectorParams};

verus! {

/// The connector argument list of memflow.
#[verifier::external_type_specification]
#[verifier::external_body]
pub struct ExArgs(memflow::plugins::Args);

/// The entries (key, value) of a memflow argument list, in order.
pub uninterp spec fn args_entries(args: memflow::plugins::Args) -> Seq<(Seq<char>, Seq<char>)>;

/// Index of the first `c` in `s`, if there is one.
pub open spec fn first_index_of(s: Seq<char>, c: char) -> Option<int>
    decreases s.len(),
{
    if s.len() == 0 {
        None
    } else if s[0] == c {
        Some(0)
    } else {
        match first_index_of(s.drop_first(), c) {
            Some(i) => Some(i + 1),
            None => None,
        }
    }
}

/// The part of `s` before its first NUL character: what is kept of a string
/// stored as a C string.
pub open spec fn until_nul(s: Seq<char>) -> Seq<char> {
    match first_index_of(s, '\0') {
        Some(i) => s.take(i),
        None => s,
    }
}

/// Index of the first entry whose key is `key`, if there is one.
pub open spec fn first_key_index(entries: Seq<(Seq<char>, Seq<char>)>, key: Seq<char>) -> Option<int>
    decreases entries.len(),
{
    if entries.len() == 0 {
        None
    } else if entries[0].0 == key {
        Some(0)
    } else {
        match first_key_index(entries.drop_first(), key) {
            Some(i) => Some(i + 1),
            None => None,
        }
    }
}

/// The entries after inserting `key` and `value`: the value of the first
/// entry with that key is replaced, or else the entry is appended. Keys and
/// values are stored up to their first NUL character.
pub open spec fn spec_args_insert(entries: Seq<(Seq<char>, Seq<char>)>, key: Seq<char>, value: Seq<char>) -> Seq<(Seq<char>, Seq<char>)> {
    match first_key_index(entries, key) {
        Some(j) => entries.update(j, (entries[j].0, until_nul(value))),
        None => entries.push((until_nul(key), until_nul(value))),
    }
}

/// The entries of an empty argument list after inserting `pairs` in order.
pub open spec fn spec_args_from_pairs(pairs: Seq<(Seq<char>, Seq<char>)>) -> Seq<(Seq<char>, Seq<char>)>
    decreases pairs.len(),
{
    if pairs.len() == 0 {
        Seq::empty()
    } else {
        spec_args_insert(spec_args_from_pairs(pairs.drop_last()), pairs.last().0, pairs.last().1)
    }
}

/// `memflow::plugins::Args::new`: an empty argument list.
#[verifier::external_body]
fn args_new() -> (r: memflow::plugins::Args)
    ensures
        args_entries(r) == Seq::<(Seq<char>, Seq<char>)>::empty(),
{
    memflow::plugins::Args::new()
}

/// `memflow::plugins::Args::insert`: replaces the value of the first entry whose key
/// is `key`, or appends the entry; keys and values are kept up to their
/// first NUL character.
#[verifier::external_body]
fn args_insert(args: memflow::plugins::Args, key: &str, value: &str) -> (r: memflow::plugins::Args)
    ensures
        args_entries(r) == spec_args_insert(args_entries(args), key@, value@),
{
    args.insert(key, value)
}

/// Errors of the Memflow driver initialization.
#[derive(Debug, Clone, PartialEq, Eq)]
pub enum MemflowDriverError {
    /// Memflow driver initialization requires a connector parameter.
    MissingConnectorParameter,
    /// A connector argument is not of the form `key=value`.
    InvalidConnectorArgument(String),
}

/// Name of the connector that receives the VM name as its `name` argument.
pub open spec fn qemu_procfs_connector_name() -> Seq<char> {
    seq!['q', 'e', 'm', 'u', '_', 'p', 'r', 'o', 'c', 'f', 's']
}

/// Key under which the VM name is handed to the `qemu_procfs` connector.
pub open spec fn name_key() -> Seq<char> {
    seq!['n', 'a', 'm', 'e']
}

/// Index of the first `=` in `s`, if there is one.
pub open spec fn first_eq_index(s: Seq<char>) -> Option<int>
    decreases s.len(),
{
    if s.len() == 0 {
        None
    } else if s[0] == '=' {
        Some(0)
    } else {
        match first_eq_index(s.drop_first()) {
            Some(i) => Some(i + 1),
            None => None,
        }
    }
}

/// `s` split at its first `=` into the key before and the value after, as
/// `str::split_once('=')` splits it.
pub open spec fn spec_split_once(s: Seq<char>) -> Option<(Seq<char>, Seq<char>)> {
    match first_eq_index(s) {
        Some(i) => Some((s.take(i), s.skip(i + 1))),
        None => None,
    }
}

/// The key/value pairs of `args`, or the index of the first argument that
/// holds no `=`.
pub open spec fn spec_parse_args(args: Seq<Seq<char>>) -> Result<Seq<(Seq<char>, Seq<char>)>, int>
    decreases args.len(),
{
    if args.len() == 0 {
        Ok(Seq::empty())
    } else {
        match spec_parse_args(args.drop_last()) {
            Err(i) => Err(i),
            Ok(pairs) => match spec_split_once(args.last()) {
                Some(kv) => Ok(pairs.push(kv)),
                None => Err(args.len() - 1),
            },
        }
    }
}

/// The arguments that the VM name contributes: `name=<vm_name>` for the
/// `qemu_procfs` connector when a VM name is given, nothing otherwise.
pub open spec fn spec_name_args(p: DriverInitParams) -> Seq<(Seq<char>, Seq<char>)> {
    if p.memflow.unwrap().connector_name@ == qemu_procfs_connector_name() && p.common is Some {
        seq![(name_key(), p.common.unwrap().vm_name@)]
    } else {
        Seq::empty()
    }
}

/// The connector arguments as strings.
pub open spec fn spec_arg_strings(p: DriverInitParams) -> Seq<Seq<char>> {
    match p.memflow.unwrap().connector_args {
        Some(MemflowConnectorParams::Default { args }) => args@.map_values(|a: String| a@),
        None => Seq::empty(),
    }
}

/// The index of the first `=` is that of a `=`, and no `=` comes before it;
/// without such an index, `s` holds no `=`.
proof fn lemma_first_eq_index_props(s: Seq<char>)
    ensures
        first_eq_index(s) matches Some(i) ==> 0 <= i < s.len() && s[i] == '='
            && forall|j: int| 0 <= j < i ==> s[j] != '=',
        first_eq_index(s) is None ==> forall|j: int| 0 <= j < s.len() ==> s[j] != '=',
    decreases s.len(),
{
    if s.len() > 0 {
        let t = s.drop_first();
        lemma_first_eq_index_props(t);
        assert forall|j: int| 1 <= j < s.len() implies s[j] == t[j - 1] by {}
    }
}

/// A split argument is made of its key, `=` and its value, and the key holds
/// no `=`; an argument splits exactly when it holds a `=`.
pub proof fn lemma_split_once_reassembles(s: Seq<char>)
    ensures
        spec_split_once(s) is Some <==> s.contains('='),
        spec_split_once(s) matches Some(kv) ==> kv.0 + seq!['='] + kv.1 == s && !kv.0.contains('='),
{
    lemma_first_eq_index_props(s);
    match first_eq_index(s) {
        Some(i) => {
            assert(s.take(i) + seq!['='] + s.skip(i + 1) =~= s);
            assert(s.contains('=')) by {
                assert(s[i] == '=');
            }
            let k = s.take(i);
            if k.contains('=') {
                let j = choose|j: int| 0 <= j < k.len() && #[trigger] k[j] == '=';
                assert(s[j] == '=');
            }
        },
        None => {
            if s.contains('=') {
                let j = choose|j: int| 0 <= j < s.len() && #[trigger] s[j] == '=';
                assert(s[j] != '=');
            }
        },
    }
}

/// Split `s` at its first `=`.
pub fn split_once_eq(s: &str) -> (r: Option<(String, String)>)
    ensures
        r is Some <==> spec_split_once(s@) is Some,
        r matches Some(kv) ==> (kv.0@, kv.1@) == spec_split_once(s@).unwrap(),
{
    let n = s.unicode_len();
    let mut i: usize = 0;
    while i < n
        invariant
            n == s@.len(),
            i <= n,
            forall|j: int| 0 <= j < i ==> s@[j] != '=',
        decreases n - i,
    {
        if s.get_char(i) == '=' {
            proof {
                lemma_first_eq_index(s@, i as int);
            }
            let key = s.substring_char(0, i).to_owned();
            let value = s.substring_char(i + 1, n).to_owned();
            return Some((key, value));
        }
        i += 1;
    }
    proof {
        lemma_no_eq(s@);
    }
    None
}

proof fn lemma_first_eq_index(s: Seq<char>, i: int)
    requires
        0 <= i < s.len(),
        s[i] == '=',
        forall|j: int| 0 <= j < i ==> s[j] != '=',
    ensures
        first_eq_index(s) == Some(i),
    decreases s.len(),
{
    if i > 0 {
        lemma_first_eq_index(s.drop_first(), i - 1);
    }
}

proof fn lemma_no_eq(s: Seq<char>)
    requires
        forall|j: int| 0 <= j < s.len() ==> s[j] != '=',
    ensures
        first_eq_index(s) is None,
    decreases s.len(),
{
    if s.len() > 0 {
        lemma_no_eq(s.drop_first());
    }
}

/// The configuration of a Memflow connector: the connector name and the
/// arguments that it is created with.
#[derive(Debug)]
pub struct Memflow {
    /// Name of the connector.
    pub connector_name: String,
    /// Arguments of the connector.
    pub extra_args: memflow::plugins::Args,
}

impl Memflow {
    /// Validate the Memflow parameters of `init_params` and build the
    /// connector arguments: the connector name is required; for the
    /// `qemu_procfs` connector the VM name, when given, is inserted as the
    /// `name` argument; then each connector argument is split at its first
    /// `=` into a key and a value, and inserted in order.
    pub fn new(init_params: DriverInitParams) -> (r: Result<Memflow, MemflowDriverError>)
        ensures
            init_params.memflow is None <==> r == Err::<Memflow, MemflowDriverError>(MemflowDriverError::MissingConnectorParameter),
            init_params.memflow is Some ==> match spec_parse_args(spec_arg_strings(init_params)) {
                Ok(pairs) => r matches Ok(m)
                    && m.connector_name@ == init_params.memflow.unwrap().connector_name@
                    && args_entries(m.extra_args) == spec_args_from_pairs(spec_name_args(init_params) + pairs),
                Err(i) => r matches Err(MemflowDriverError::InvalidConnectorArgument(s))
                    && s@ == spec_arg_strings(init_params)[i],
            },
    {
        let ghost p = init_params;
        let memflow_init_params = match init_params.memflow {
            Some(m) => m,
            None => {
                return Err(MemflowDriverError::MissingConnectorParameter);
            },
        };
        let mut extra_args = args_new();
        assert(spec_args_from_pairs(Seq::empty()) == Seq::<(Seq<char>, Seq<char>)>::empty());
        let qemu_procfs = "qemu_procfs".to_owned();
        proof {
            reveal_strlit("qemu_procfs");
            reveal_strlit("name");
        }
        assert(qemu_procfs@ =~= qemu_procfs_connector_name());
        assert("name"@ =~= name_key());
        if memflow_init_params.connector_name == qemu_procfs {
            match init_params.common {
                Some(common) => {
                    extra_args = args_insert(extra_args, "name", common.vm_name.as_str());
                    assert(spec_name_args(p).drop_last() =~= Seq::<(Seq<char>, Seq<char>)>::empty());
                    assert(first_key_index(Seq::empty(), name_key()) is None);
                },
                None => {},
            }
        }
        assert(args_entries(extra_args) == spec_args_from_pairs(spec_name_args(p)));
        match memflow_init_params.connector_args {
            Some(MemflowConnectorParams::Default { args }) => {
                let ghost prefix = spec_name_args(p);
                let ghost strs = args@.map_values(|a: String| a@);
                assert(strs == spec_arg_strings(p));
                assert(strs.take(0) =~= Seq::<Seq<char>>::empty());
                assert(prefix + Seq::<(Seq<char>, Seq<char>)>::empty() =~= prefix);
                let mut k: usize = 0;
                while k < args.len()
                    invariant
                        k <= args@.len(),
                        strs == args@.map_values(|a: String| a@),
                        prefix == spec_name_args(p),
                        strs == spec_arg_strings(p),
                        p.memflow is Some,
                        p == init_params,
                        p.memflow.unwrap().connector_name@ == memflow_init_params.connector_name@,
                        spec_parse_args(strs.take(k as int)) matches Ok(pairs)
                            && args_entries(extra_args) == spec_args_from_pairs(prefix + pairs),
                    decreases args.len() - k,
                {
                    assert(strs.take(k + 1).drop_last() =~= strs.take(k as int));
                    assert(strs.take(k + 1).last() == args@[k as int]@);
                    let ghost pairs = spec_parse_args(strs.take(k as int))->Ok_0;
                    match split_once_eq(args[k].as_str()) {
                        Some(kv) => {
                            extra_args = args_insert(extra_args, kv.0.as_str(), kv.1.as_str());
                            let ghost all = prefix + pairs.push((kv.0@, kv.1@));
                            assert(all =~= (prefix + pairs).push((kv.0@, kv.1@)));
                            assert(all.drop_last() =~= prefix + pairs);
                        },
                        None => {
                            proof {
                                lemma_parse_err_extends(strs, k as int);
                            }
                            let bad = args[k].clone();
                            return Err(MemflowDriverError::InvalidConnectorArgument(bad));
                        },
                    }
                    k += 1;
                }
                assert(strs.take(args.len() as int) =~= strs);
            },
            None => {
                assert(spec_name_args(p) + Seq::<(Seq<char>, Seq<char>)>::empty() =~= spec_name_args(p));
            },
        }
        Ok(Memflow { connector_name: memflow_init_params.connector_name, extra_args })
    }
}

/// A parse that fails at argument `k` of a prefix fails at `k` on every
/// longer prefix.
proof fn lemma_parse_err_extends(strs: Seq<Seq<char>>, k: int)
    requires
        0 <= k < strs.len(),
        spec_parse_args(strs.take(k + 1)) == Err::<Seq<(Seq<char>, Seq<char>)>, int>(k),
    ensures
        spec_parse_args(strs) == Err::<Seq<(Seq<char>, Seq<char>)>, int>(k),
    decreases strs.len(),
{
    if strs.len() == k + 1 {
        assert(strs.take(k + 1) =~= strs);
    } else {
        assert(strs.drop_last().take(k + 1) =~= strs.take(k + 1));
        lemma_parse_err_extends(strs.drop_last(), k);
    }
}

} // verus!

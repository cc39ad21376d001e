//! A snapshot of the process environment, and the lookups the service makes in
//! it.

use vstd::prelude::*;
use crate::text::same_text;

verus! {

/// The variables of a process, as `(name, value)` pairs in the order in which
/// the system lists them. Where a name occurs more than once, the first
/// occurrence is the one that counts.
pub struct Environment {
    pub vars: Vec<(String, String)>,
}

impl View for Environment {
    type V = Seq<(Seq<char>, Seq<char>)>;

    open spec fn view(&self) -> Seq<(Seq<char>, Seq<char>)> {
        self.vars.deep_view()
    }
}

/// The value of the first pair named `key`, if there is one.
pub open spec fn lookup(vars: Seq<(Seq<char>, Seq<char>)>, key: Seq<char>) -> Option<Seq<char>>
    decreases vars.len(),
{
    if vars.len() == 0 {
        None
    } else if vars[0].0 == key {
        Some(vars[0].1)
    } else {
        lookup(vars.drop_first(), key)
    }
}

/// The value of `key`, or `default_value` where `key` is not set.
pub open spec fn value_or(
    vars: Seq<(Seq<char>, Seq<char>)>,
    key: Seq<char>,
    default_value: Seq<char>,
) -> Seq<char> {
    match lookup(vars, key) {
        Some(value) => value,
        None => default_value,
    }
}

/// The port the service listens on: `PORT`, else `8080`.
pub open spec fn port_of(vars: Seq<(Seq<char>, Seq<char>)>) -> Seq<char> {
    value_or(vars, "PORT"@, "8080"@)
}

/// The version the service reports: `VERSION`, else `1.0.0`.
pub open spec fn version_of(vars: Seq<(Seq<char>, Seq<char>)>) -> Seq<char> {
    value_or(vars, "VERSION"@, "1.0.0"@)
}

/// The branch the service reports: `branch`, else `unknown`.
pub open spec fn branch_of(vars: Seq<(Seq<char>, Seq<char>)>) -> Seq<char> {
    value_or(vars, "branch"@, "unknown"@)
}

/// The address the service binds: every interface, on `port_of`.
pub open spec fn bind_address_text(vars: Seq<(Seq<char>, Seq<char>)>) -> Seq<char> {
    "0.0.0.0:"@ + port_of(vars)
}

/// Whether no pair is named `key`.
pub open spec fn is_unset(vars: Seq<(Seq<char>, Seq<char>)>, key: Seq<char>) -> bool {
    forall|i: int| 0 <= i < vars.len() ==> (#[trigger] vars[i]).0 != key
}

/// A lookup finds nothing exactly where no pair has the name; what it finds
/// is the value of the first pair that has it.
pub proof fn lemma_lookup_finds_first(vars: Seq<(Seq<char>, Seq<char>)>, key: Seq<char>)
    ensures
        lookup(vars, key) is None <==> is_unset(vars, key),
        lookup(vars, key) matches Some(value) ==> exists|i: int|
            0 <= i < vars.len() && (#[trigger] vars[i]) == (key, value) && is_unset(
                vars.take(i),
                key,
            ),
    decreases vars.len(),
{
    if vars.len() > 0 {
        if vars[0].0 == key {
            assert(vars[0] == (key, vars[0].1));
            assert(is_unset(vars.take(0), key));
        } else {
            let rest = vars.drop_first();
            lemma_lookup_finds_first(rest, key);
            if lookup(rest, key) is None {
                assert forall|i: int| 0 <= i < vars.len() implies (#[trigger] vars[i]).0
                    != key by {
                    if i > 0 {
                        assert(rest[i - 1].0 != key);
                    }
                }
            } else {
                let value = lookup(rest, key).unwrap();
                let i = choose|i: int|
                    0 <= i < rest.len() && (#[trigger] rest[i]) == (key, value) && is_unset(
                        rest.take(i),
                        key,
                    );
                assert(vars[i + 1] == rest[i]);
                assert forall|j: int| 0 <= j < vars.take(i + 1).len() implies (
                #[trigger] vars.take(i + 1)[j]).0 != key by {
                    if j > 0 {
                        assert(rest.take(i)[j - 1].0 != key);
                    }
                }
                assert(!is_unset(vars, key));
            }
        }
    }
}

/// A variable that is not set takes its default.
pub proof fn lemma_unset_takes_default(
    vars: Seq<(Seq<char>, Seq<char>)>,
    key: Seq<char>,
    default_value: Seq<char>,
)
    requires
        is_unset(vars, key),
    ensures
        value_or(vars, key, default_value) == default_value,
{
    lemma_lookup_finds_first(vars, key);
}

impl Environment {
    /// A snapshot that holds `vars`.
    pub fn new(vars: Vec<(String, String)>) -> (env: Environment)
        ensures
            env.vars == vars,
    {
        Environment { vars }
    }

    /// Looks `key` up.
    pub fn get(&self, key: &str) -> (found: Option<&String>)
        ensures
            found.deep_view() == lookup(self@, key@),
    {
        let mut i: usize = 0;
        proof {
            assert(self@.skip(0) =~= self@);
        }
        while i < self.vars.len()
            invariant
                i <= self.vars.len(),
                lookup(self@, key@) == lookup(self@.skip(i as int), key@),
            decreases self.vars.len() - i,
        {
            proof {
                assert(self@.skip(i as int).drop_first() =~= self@.skip(i + 1));
                assert(self@.skip(i as int)[0] == self.vars@[i as int].deep_view());
            }
            if same_text(self.vars[i].0.as_str(), key) {
                return Some(&self.vars[i].1);
            }
            i += 1;
        }
        None
    }
}

/// The value of `key` in `env`, or `default_value` where `env` does not set
/// `key`.
pub fn get_env_with_default(env: &Environment, key: &str, default_value: &str) -> (value: String)
    ensures
        value@ == value_or(env@, key@, default_value@),
{
    match env.get(key) {
        Some(found) => found.clone(),
        None => default_value.to_owned(),
    }
}

/// The address to bind the listener to.
pub fn bind_address(env: &Environment) -> (address: String)
    ensures
        address@ == bind_address_text(env@),
{
    let port: String = get_env_with_default(env, "PORT", "8080");
    String::from_str("0.0.0.0:").concat(port.as_str())
}

} // verus!

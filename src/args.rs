use vstd::prelude::*;

verus! {

/// How an account argument was malformed.
#[derive(Clone, Copy, Debug, PartialEq, Eq, Structural)]
pub enum ArgsError {
    /// No account was given at all.
    NoAccounts,
    /// An account argument is not of the form `login:password`.
    InvalidFormat,
}

pub open spec fn colon_count(s: Seq<char>) -> nat
    decreases s.len(),
{
    if s.len() == 0 {
        0
    } else {
        colon_count(s.drop_last()) + if s.last() == ':' {
            1nat
        } else {
            0nat
        }
    }
}

/// The pieces put back together, with a ':' between each two.
pub open spec fn joined(parts: Seq<Seq<char>>) -> Seq<char>
    decreases parts.len(),
{
    if parts.len() <= 1 {
        if parts.len() == 0 {
            Seq::empty()
        } else {
            parts[0]
        }
    } else {
        joined(parts.drop_last()) + seq![':'] + parts.last()
    }
}

pub open spec fn views(v: Seq<String>) -> Seq<Seq<char>> {
    v.map_values(|p: String| p@)
}

/// Relies on str::split with a char pattern: the pieces between the
/// separators, in order, one more than there are separators (so one empty
/// piece for an empty text), none of them holding the separator.
#[verifier::external_body]
fn split_colons(s: &str) -> (r: Vec<String>)
    ensures
        r@.len() >= 1,
        joined(views(r@)) == s@,
        forall|i: int| 0 <= i < r@.len() ==> !(#[trigger] r@[i])@.contains(':'),
{
    s.split(':').map(|p| p.to_string()).collect()
}

proof fn lemma_colon_count_concat(a: Seq<char>, b: Seq<char>)
    ensures
        colon_count(a + b) == colon_count(a) + colon_count(b),
    decreases b.len(),
{
    if b.len() == 0 {
        assert(a + b =~= a);
    } else {
        lemma_colon_count_concat(a, b.drop_last());
        assert((a + b).drop_last() =~= a + b.drop_last());
    }
}

proof fn lemma_colon_free(s: Seq<char>)
    requires
        !s.contains(':'),
    ensures
        colon_count(s) == 0,
    decreases s.len(),
{
    if s.len() > 0 {
        assert(s.drop_last().len() < s.len());
        assert forall|i: int| 0 <= i < s.drop_last().len() implies s.drop_last()[i] != ':' by {
            assert(s[i] == s.drop_last()[i]);
        }
        lemma_colon_free(s.drop_last());
        assert(s[s.len() - 1] != ':');
    }
}

proof fn lemma_joined_colons(parts: Seq<Seq<char>>)
    requires
        parts.len() >= 1,
        forall|i: int| 0 <= i < parts.len() ==> !(#[trigger] parts[i]).contains(':'),
    ensures
        colon_count(joined(parts)) + 1 == parts.len(),
    decreases parts.len(),
{
    if parts.len() == 1 {
        lemma_colon_free(parts[0]);
    } else {
        let p = parts.drop_last();
        assert forall|i: int| 0 <= i < p.len() implies !(#[trigger] p[i]).contains(':') by {
            assert(p[i] == parts[i]);
        }
        lemma_joined_colons(p);
        lemma_colon_count_concat(joined(p), seq![':']);
        lemma_colon_count_concat(joined(p) + seq![':'], parts.last());
        lemma_colon_free(parts.last());
        assert(seq![':'].drop_last() =~= Seq::<char>::empty());
        assert(colon_count(Seq::<char>::empty()) == 0);
        assert(colon_count(seq![':']) == 1);
    }
}

/// Splits an account argument `login:password` at its one ':'.
pub fn parse_account(s: &String) -> (r: Result<(String, String), ArgsError>)
    ensures
        r is Ok <==> colon_count(s@) == 1,
        r is Err ==> r == Err::<(String, String), ArgsError>(ArgsError::InvalidFormat),
        r matches Ok((login, password)) ==> s@ == login@ + seq![':'] + password@
            && !login@.contains(':') && !password@.contains(':'),
{
    let mut parts = split_colons(s.as_str());
    proof {
        lemma_joined_colons(views(parts@));
    }
    if parts.len() != 2 {
        return Err(ArgsError::InvalidFormat);
    }
    let ghost v = views(parts@);
    let ghost first = parts@[0];
    let ghost second = parts@[1];
    proof {
        assert(v[0] == first@ && v[1] == second@);
        assert(v.drop_last() =~= seq![v[0]]);
        assert(joined(v.drop_last()) == v[0]);
        assert(joined(v) == first@ + seq![':'] + second@);
        assert(!parts@[0]@.contains(':'));
        assert(!parts@[1]@.contains(':'));
    }
    let password = parts.pop().unwrap();
    let login = parts.pop().unwrap();
    Ok((login, password))
}

/// The accounts named on the command line, each as login and password; at
/// least one is needed, and each must be of the form `login:password`.
pub fn parse_accounts(args: &Vec<String>) -> (r: Result<Vec<(String, String)>, ArgsError>)
    ensures
        args@.len() == 0 ==> r == Err::<Vec<(String, String)>, ArgsError>(ArgsError::NoAccounts),
        args@.len() > 0 && (exists|i: int| 0 <= i < args@.len() && colon_count(#[trigger] args@[i]@) != 1)
            ==> r == Err::<Vec<(String, String)>, ArgsError>(ArgsError::InvalidFormat),
        r is Ok <==> args@.len() > 0 && forall|i: int| 0 <= i < args@.len() ==> colon_count(
            #[trigger] args@[i]@,
        ) == 1,
        r matches Ok(v) ==> v@.len() == args@.len() && forall|i: int|
            0 <= i < v@.len() ==> args@[i]@ == (#[trigger] v@[i]).0@ + seq![':'] + v@[i].1@
                && !v@[i].0@.contains(':') && !v@[i].1@.contains(':'),
{
    if args.len() == 0 {
        return Err(ArgsError::NoAccounts);
    }
    let mut v: Vec<(String, String)> = Vec::new();
    let mut i: usize = 0;
    while i < args.len()
        invariant
            i <= args@.len(),
            v@.len() == i,
            forall|j: int| 0 <= j < i ==> colon_count(#[trigger] args@[j]@) == 1,
            forall|j: int|
                0 <= j < i ==> args@[j]@ == (#[trigger] v@[j]).0@ + seq![':'] + v@[j].1@
                    && !v@[j].0@.contains(':') && !v@[j].1@.contains(':'),
        decreases args.len() - i,
    {
        match parse_account(&args[i]) {
            Ok(pair) => v.push(pair),
            Err(e) => {
                return Err(e);
            },
        }
        i = i + 1;
    }
    Ok(v)
}

} // verus!

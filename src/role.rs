use vstd::prelude::*;

verus! {

/// Which side of the connection this peer takes.
#[derive(Clone, Copy, Debug, PartialEq, Eq, Structural)]
pub enum Role {
    /// Binds a listening socket and accepts one peer.
    Server,
    /// Dials the listening peer.
    Client,
}

/// The role named by a token: `"server"` or `"client"`, nothing else.
pub open spec fn role_of(token: Seq<char>) -> Option<Role> {
    if token == "server"@ {
        Some(Role::Server)
    } else if token == "client"@ {
        Some(Role::Client)
    } else {
        None
    }
}

/// Parses a role token.
pub fn parse_role(token: &str) -> (r: Option<Role>)
    ensures
        r == role_of(token@),
{
    if str_eq(token, "server") {
        Some(Role::Server)
    } else if str_eq(token, "client") {
        Some(Role::Client)
    } else {
        None
    }
}

/// Character-wise equality of two strings.
fn str_eq(a: &str, b: &str) -> (r: bool)
    ensures
        r == (a@ == b@),
{
    let n = a.unicode_len();
    if n != b.unicode_len() {
        return false;
    }
    let mut i: usize = 0;
    while i < n
        invariant
            n == a@.len(),
            n == b@.len(),
            i <= n,
            a@.subrange(0, i as int) == b@.subrange(0, i as int),
        decreases n - i,
    {
        if a.get_char(i) != b.get_char(i) {
            assert(a@[i as int] != b@[i as int]);
            return false;
        }
        assert(a@.subrange(0, i + 1) == a@.subrange(0, i as int).push(a@[i as int]));
        assert(b@.subrange(0, i + 1) == b@.subrange(0, i as int).push(b@[i as int]));
        i = i + 1;
    }
    assert(a@ == a@.subrange(0, n as int));
    assert(b@ == b@.subrange(0, n as int));
    true
}

} // verus!

verus! {

/// What the program was asked to do: a role, an address, and perhaps a display name.
#[derive(Debug, PartialEq, Eq)]
pub struct Invocation {
    pub role: Role,
    pub address: String,
    pub name: Option<String>,
}

/// Why the arguments were refused.
#[derive(Clone, Copy, Debug, PartialEq, Eq, Structural)]
pub enum UsageError {
    /// Not a role, an address and at most one name.
    WrongArgumentCount,
    /// The role token is neither `server` nor `client`.
    UnknownRole,
}

/// Tells whether the argument list, the program's own name first, has a valid length.
pub open spec fn arg_count_ok(n: nat) -> bool {
    n == 3 || n == 4
}

/// The model of an optional string.
pub open spec fn opt_view(s: Option<String>) -> Option<Seq<char>> {
    match s {
        Some(t) => Some(t@),
        None => None,
    }
}

/// The display name among the arguments, if one is given.
pub open spec fn name_arg(args: Seq<String>) -> Option<Seq<char>> {
    if args.len() == 4 {
        Some(args[3]@)
    } else {
        None
    }
}

/// Reads the arguments, the program's own name first: a role, an address and an optional
/// display name.
pub fn parse_invocation(args: &Vec<String>) -> (r: Result<Invocation, UsageError>)
    ensures
        !arg_count_ok(args@.len()) ==> r == Err::<Invocation, UsageError>(
            UsageError::WrongArgumentCount,
        ),
        arg_count_ok(args@.len()) && role_of(args@[1]@) is None ==> r == Err::<
            Invocation,
            UsageError,
        >(UsageError::UnknownRole),
        arg_count_ok(args@.len()) && role_of(args@[1]@) is Some ==> {
            &&& r is Ok
            &&& r->Ok_0.role == role_of(args@[1]@)->0
            &&& r->Ok_0.address@ == args@[2]@
            &&& opt_view(r->Ok_0.name) == name_arg(args@)
        },
{
    if args.len() != 3 && args.len() != 4 {
        return Err(UsageError::WrongArgumentCount);
    }
    match parse_role(args[1].as_str()) {
        None => Err(UsageError::UnknownRole),
        Some(role) => {
            let name = if args.len() == 4 {
                Some(args[3].clone())
            } else {
                None
            };
            Ok(Invocation { role, address: args[2].clone(), name })
        },
    }
}

/// The text shown when the arguments are refused.
pub fn usage_text(program: &str) -> (r: String)
    ensures
        r@ == "Usage: "@ + program@ + " <server|client> <host:port> [name]"@,
{
    String::from_str("Usage: ").concat(program).concat(" <server|client> <host:port> [name]")
}

} // verus!

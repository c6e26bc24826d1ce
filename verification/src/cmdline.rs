//! The command-line credential strategy: scan a process's argument list for
//! the two prefixed flags that carry the control-API port and auth token.

use vstd::prelude::*;
use crate::errors::Error;
use crate::errors::ErrorKind;
use crate::text::strip_prefix_spec;
use crate::text::strip_prefix_string;
use crate::discovery::Credentials;

verus! {

/// The flag prefix that carries the port.
pub open spec fn port_prefix() -> Seq<char> {
    "--app-port="@
}

/// The flag prefix that carries the auth token.
pub open spec fn token_prefix() -> Seq<char> {
    "--remoting-auth-token="@
}

/// The value of the first argument carrying `prefix`, if any.
pub open spec fn find_prefixed(args: Seq<Seq<char>>, prefix: Seq<char>) -> Option<Seq<char>>
    decreases args.len(),
{
    if args.len() == 0 {
        None
    } else if strip_prefix_spec(args[0], prefix) is Some {
        strip_prefix_spec(args[0], prefix)
    } else {
        find_prefixed(args.drop_first(), prefix)
    }
}

/// What the command-line strategy yields on an argument list: the raw port
/// and token strings, or the kind of failure. A missing port is reported
/// before a missing token.
pub open spec fn command_line_credentials(args: Seq<Seq<char>>) -> Result<
    (Seq<char>, Seq<char>),
    ErrorKind,
> {
    match (find_prefixed(args, port_prefix()), find_prefixed(args, token_prefix())) {
        (Some(port), Some(token)) => Ok((port, token)),
        (None, _) => Err(ErrorKind::PortNotFound),
        (_, None) => Err(ErrorKind::AuthTokenNotFound),
    }
}

/// Scanning from `i` either hits a match at `i` or moves on.
proof fn lemma_find_prefixed_step(args: Seq<Seq<char>>, prefix: Seq<char>, i: int)
    requires
        0 <= i < args.len(),
    ensures
        strip_prefix_spec(args[i], prefix) is Some ==> find_prefixed(args.skip(i), prefix)
            == strip_prefix_spec(args[i], prefix),
        strip_prefix_spec(args[i], prefix) is None ==> find_prefixed(args.skip(i), prefix)
            == find_prefixed(args.skip(i + 1), prefix),
{
    assert(args.skip(i)[0] == args[i]);
    assert(args.skip(i).drop_first() =~= args.skip(i + 1));
}

/// Stripping a prefix off a string built as that prefix followed by a value
/// yields the value.
pub proof fn lemma_strip_prefix_of_concat(prefix: Seq<char>, value: Seq<char>)
    ensures
        strip_prefix_spec(prefix + value, prefix) == Some(value),
{
    assert((prefix + value).take(prefix.len() as int) =~= prefix);
    assert((prefix + value).skip(prefix.len() as int) =~= value);
}

/// The first argument carrying `prefix` decides the scan.
pub proof fn lemma_find_prefixed_found_at(args: Seq<Seq<char>>, prefix: Seq<char>, i: int)
    requires
        0 <= i < args.len(),
        strip_prefix_spec(args[i], prefix) is Some,
        forall|j: int| 0 <= j < i ==> strip_prefix_spec(args[j], prefix) is None,
    ensures
        find_prefixed(args, prefix) == strip_prefix_spec(args[i], prefix),
    decreases i,
{
    if i > 0 {
        assert(args.drop_first()[i - 1] == args[i]);
        assert forall|j: int| 0 <= j < i - 1 implies strip_prefix_spec(
            args.drop_first()[j],
            prefix,
        ) is None by {
            assert(args.drop_first()[j] == args[j + 1]);
        }
        lemma_find_prefixed_found_at(args.drop_first(), prefix, i - 1);
    }
}

/// No argument carries both flag prefixes: they differ three characters in.
pub proof fn lemma_prefixes_distinct(x: Seq<char>)
    ensures
        !(strip_prefix_spec(x, port_prefix()) is Some && strip_prefix_spec(
            x,
            token_prefix(),
        ) is Some),
{
    reveal_strlit("--app-port=");
    reveal_strlit("--remoting-auth-token=");
    if strip_prefix_spec(x, port_prefix()) is Some && strip_prefix_spec(
        x,
        token_prefix(),
    ) is Some {
        assert(x.take(port_prefix().len() as int)[2] == x[2]);
        assert(x.take(token_prefix().len() as int)[2] == x[2]);
        assert(false);
    }
}

/// With a port flag at `i` and a token flag at `j`, neither preceded by an
/// argument carrying its prefix, the command-line strategy yields exactly
/// the two flagged values — wherever in the list the two flags stand.
pub proof fn lemma_flags_give_credentials(
    args: Seq<Seq<char>>,
    i: int,
    j: int,
    port: Seq<char>,
    token: Seq<char>,
)
    requires
        0 <= i < args.len(),
        0 <= j < args.len(),
        args[i] == port_prefix() + port,
        args[j] == token_prefix() + token,
        forall|k: int| 0 <= k < i ==> strip_prefix_spec(args[k], port_prefix()) is None,
        forall|k: int| 0 <= k < j ==> strip_prefix_spec(args[k], token_prefix()) is None,
    ensures
        command_line_credentials(args) == Ok::<_, ErrorKind>((port, token)),
{
    lemma_strip_prefix_of_concat(port_prefix(), port);
    lemma_strip_prefix_of_concat(token_prefix(), token);
    lemma_find_prefixed_found_at(args, port_prefix(), i);
    lemma_find_prefixed_found_at(args, token_prefix(), j);
}

/// Order independence of the two flags: among arguments that carry neither
/// prefix, the port flag and the token flag may stand in either order, with
/// anything after them, without changing the outcome.
pub proof fn lemma_order_independent(
    pre: Seq<Seq<char>>,
    mid: Seq<Seq<char>>,
    post: Seq<Seq<char>>,
    port: Seq<char>,
    token: Seq<char>,
)
    requires
        forall|k: int| 0 <= k < pre.len() ==> strip_prefix_spec(
            #[trigger] pre[k],
            port_prefix(),
        ) is None && strip_prefix_spec(pre[k], token_prefix()) is None,
        forall|k: int| 0 <= k < mid.len() ==> strip_prefix_spec(
            #[trigger] mid[k],
            port_prefix(),
        ) is None && strip_prefix_spec(mid[k], token_prefix()) is None,
    ensures
        command_line_credentials(
            pre + seq![port_prefix() + port] + mid + seq![token_prefix() + token] + post,
        ) == Ok::<_, ErrorKind>((port, token)),
        command_line_credentials(
            pre + seq![token_prefix() + token] + mid + seq![port_prefix() + port] + post,
        ) == Ok::<_, ErrorKind>((port, token)),
{
    let pa = port_prefix() + port;
    let ta = token_prefix() + token;
    lemma_strip_prefix_of_concat(port_prefix(), port);
    lemma_strip_prefix_of_concat(token_prefix(), token);
    lemma_prefixes_distinct(pa);
    lemma_prefixes_distinct(ta);

    let args1 = pre + seq![pa] + mid + seq![ta] + post;
    let n1 = pre.len() as int;
    let n2 = pre.len() + 1 + mid.len();
    assert(args1[n1] == pa);
    assert(args1[n2 as int] == ta);
    assert(forall|k: int| 0 <= k < n1 ==> args1[k] == pre[k]);
    assert(forall|k: int| n1 < k < n2 ==> args1[k] == mid[k - n1 - 1]);
    lemma_flags_give_credentials(args1, n1, n2 as int, port, token);

    let args2 = pre + seq![ta] + mid + seq![pa] + post;
    assert(args2[n1] == ta);
    assert(args2[n2 as int] == pa);
    assert(forall|k: int| 0 <= k < n1 ==> args2[k] == pre[k]);
    assert(forall|k: int| n1 < k < n2 ==> args2[k] == mid[k - n1 - 1]);
    lemma_flags_give_credentials(args2, n2 as int, n1, port, token);
}

/// Scan the argument list for the two flags, order-independently, stopping
/// as soon as both are found.
pub fn extract_from_command_line(args: &Vec<String>) -> (r: Result<Credentials, Error>)
    ensures
        match r {
            Ok(c) => command_line_credentials(args.deep_view()) == Ok::<_, ErrorKind>(
                (c.port@, c.auth_token@),
            ),
            Err(e) => {
                &&& command_line_credentials(args.deep_view()) == Err::<(Seq<char>, Seq<char>), _>(
                    e.spec_kind(),
                )
                &&& !e.spec_lock_file_error()
                &&& e.spec_kind() == ErrorKind::PortNotFound ==> e.spec_message()
                    == "port was not found"@
                &&& e.spec_kind() == ErrorKind::AuthTokenNotFound ==> e.spec_message()
                    == "auth token was not found"@
            },
        },
{
    let ghost views = args.deep_view();
    let n = args.len();
    let mut port: Option<String> = None;
    let mut auth: Option<String> = None;
    let mut i: usize = 0;
    proof {
        assert(views.skip(0) =~= views);
    }
    while i < n && !(port.is_some() && auth.is_some())
        invariant
            i <= n == views.len(),
            views == args.deep_view(),
            match port {
                Some(p) => find_prefixed(views, port_prefix()) == Some(p@),
                None => find_prefixed(views, port_prefix()) == find_prefixed(
                    views.skip(i as int),
                    port_prefix(),
                ),
            },
            match auth {
                Some(t) => find_prefixed(views, token_prefix()) == Some(t@),
                None => find_prefixed(views, token_prefix()) == find_prefixed(
                    views.skip(i as int),
                    token_prefix(),
                ),
            },
        decreases n - i,
    {
        proof {
            assert(views[i as int] == args@[i as int]@);
            lemma_find_prefixed_step(views, token_prefix(), i as int);
            lemma_find_prefixed_step(views, port_prefix(), i as int);
        }
        if auth.is_none() {
            auth = strip_prefix_string(args[i].as_str(), "--remoting-auth-token=");
        }
        if port.is_none() {
            port = strip_prefix_string(args[i].as_str(), "--app-port=");
        }
        i += 1;
    }
    proof {
        if i == n {
            assert(views.skip(n as int) =~= Seq::<Seq<char>>::empty());
        }
    }
    let port = match port {
        Some(p) => p,
        None => {
            return Err(Error::new(ErrorKind::PortNotFound, "port was not found"));
        },
    };
    let auth = match auth {
        Some(t) => t,
        None => {
            return Err(Error::new(ErrorKind::AuthTokenNotFound, "auth token was not found"));
        },
    };
    Ok(Credentials { port, auth_token: auth })
}

} // verus!

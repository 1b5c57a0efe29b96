//! Command line arguments of a form of their own.
use crate::error::{new_report, report_messages, texts};
use crate::text::{
    join_then_split, joined, split, split_at_each, split_parts_hold_no_separator, split_then_join,
};
use color_eyre::eyre::Report;
use vstd::prelude::*;
use vstd::string::*;

verus! {

/// How `std` shows a list of strings in diagnostics: each in quotes and escaped, in brackets.
pub uninterp spec fn debug_list(strings: Seq<Seq<char>>) -> Seq<char>;

/// Formats a list of strings with the `Debug` implementations of `std`. What comes out depends
/// on the strings alone.
#[verifier::external_body]
fn debug_list_text(strings: &Vec<String>) -> (text: String)
    ensures
        text@ == debug_list(texts(strings@)),
{
    format!("{:?}", strings)
}

/// A host and a port as one text.
pub open spec fn host_and_port(host: Seq<char>, port: Seq<char>) -> Seq<char> {
    host + ":"@ + port
}

/// The local and the remote address that some parts name, the local one without a host standing
/// for every address of the machine.
pub open spec fn forwarding(parts: Seq<Seq<char>>) -> Option<(Seq<char>, Seq<char>)> {
    if parts.len() == 4 {
        Some((host_and_port(parts[0], parts[1]), host_and_port(parts[2], parts[3])))
    } else if parts.len() == 3 {
        Some((host_and_port("0.0.0.0"@, parts[0]), host_and_port(parts[1], parts[2])))
    } else {
        None
    }
}

/// Writes a host and a port as one text.
fn host_and_port_text(host: &str, port: &str) -> (text: String)
    ensures
        text@ == host_and_port(host@, port@),
{
    let mut text: String = host.to_owned();
    text.append(":");
    text.append(port);
    text
}

/// Reads what to forward: `[bind_address:]port:host:hostport`. Gives the local address, which
/// has yet to be looked up, and the remote one.
pub fn local_port_forward_specifier(s: &str) -> (res: Result<(String, String), Report>)
    ensures
        match forwarding(split_at_each(s@, ':')) {
            Some((local, remote)) => res matches Ok(addrs) && addrs.0@ == local && addrs.1@
                == remote,
            None => res matches Err(err) && report_messages(err) == seq![
                "invalid port forwarding specifier: "@ + debug_list(split_at_each(s@, ':')),
            ],
        },
{
    let parts: Vec<String> = split(s, ':');
    assert forall|i: int| 0 <= i < parts@.len() implies #[trigger] texts(parts@)[i]
        == parts@[i]@ by {}
    if parts.len() == 4 {
        assert(texts(parts@)[0] == parts@[0]@ && texts(parts@)[1] == parts@[1]@);
        assert(texts(parts@)[2] == parts@[2]@ && texts(parts@)[3] == parts@[3]@);
        Ok(
            (
                host_and_port_text(parts[0].as_str(), parts[1].as_str()),
                host_and_port_text(parts[2].as_str(), parts[3].as_str()),
            ),
        )
    } else if parts.len() == 3 {
        assert(texts(parts@)[0] == parts@[0]@ && texts(parts@)[1] == parts@[1]@);
        assert(texts(parts@)[2] == parts@[2]@);
        Ok(
            (
                host_and_port_text("0.0.0.0", parts[0].as_str()),
                host_and_port_text(parts[1].as_str(), parts[2].as_str()),
            ),
        )
    } else {
        let mut message: String = "invalid port forwarding specifier: ".to_owned();
        message.append(debug_list_text(&parts).as_str());
        Err(new_report(message))
    }
}

/// The two addresses make up the text that was given; where it names no host for the local one,
/// that host is every address of the machine.
pub proof fn nothing_of_a_specifier_is_lost(s: Seq<char>, local: Seq<char>, remote: Seq<char>)
    requires
        forwarding(split_at_each(s, ':')) == Some((local, remote)),
    ensures
        local + ":"@ + remote == if split_at_each(s, ':').len() == 4 {
            s
        } else {
            "0.0.0.0:"@ + s
        },
{
    let parts = split_at_each(s, ':');
    split_then_join(s, ':');
    reveal_strlit(":");
    reveal_strlit("0.0.0.0");
    reveal_strlit("0.0.0.0:");
    assert(":"@ == seq![':']);
    assert("0.0.0.0:"@ == "0.0.0.0"@ + ":"@);
    reveal_with_fuel(joined, 5);
    if parts.len() == 4 {
        assert(joined(parts, seq![':']) == parts[0] + ":"@ + parts[1] + ":"@ + parts[2] + ":"@
            + parts[3]);
        assert(local + ":"@ + remote == s);
    } else {
        assert(joined(parts, seq![':']) == parts[0] + ":"@ + parts[1] + ":"@ + parts[2]);
        assert(local + ":"@ + remote == "0.0.0.0:"@ + s);
    }
}

/// A text is taken exactly if it has three parts or four, and gives two addresses of two parts
/// each: the host and the port to connect to are the last two, the port to listen on is the one
/// before them, and the host to listen on is the first of four.
pub proof fn a_specifier_gives_two_addresses(s: Seq<char>)
    ensures
        ({
            let parts = split_at_each(s, ':');
            let n = parts.len();
            &&& forwarding(parts) is Some <==> n == 3 || n == 4
            &&& forwarding(parts) matches Some((local, remote)) ==> {
                let from = split_at_each(local, ':');
                let to = split_at_each(remote, ':');
                &&& to == seq![parts[n - 2], parts[n - 1]]
                &&& from.len() == 2
                &&& from[1] == parts[n - 3]
                &&& from[0] == if n == 4 {
                    parts[0]
                } else {
                    "0.0.0.0"@
                }
            }
        }),
{
    let parts = split_at_each(s, ':');
    split_parts_hold_no_separator(s, ':');
    assert forall|i: int| 0 <= i < parts.len() implies !(#[trigger] parts[i]).contains(':') by {
        if parts[i].contains(':') {
            let j = choose|j: int| 0 <= j < parts[i].len() && parts[i][j] == ':';
            assert(split_at_each(s, ':')[i][j] == ':');
        }
    }
    reveal_strlit("0.0.0.0");
    let n = parts.len() as int;
    if n == 3 || n == 4 {
        let host = if n == 4 {
            parts[0]
        } else {
            "0.0.0.0"@
        };
        assert(!host.contains(':'));
        lemma_host_and_port_split(host, parts[n - 3]);
        lemma_host_and_port_split(parts[n - 2], parts[n - 1]);
    }
}

proof fn lemma_host_and_port_split(host: Seq<char>, port: Seq<char>)
    requires
        !host.contains(':'),
        !port.contains(':'),
    ensures
        split_at_each(host_and_port(host, port), ':') == seq![host, port],
{
    reveal_strlit(":");
    assert(":"@ == seq![':']);
    let parts = seq![host, port];
    reveal_with_fuel(joined, 3);
    assert(parts.drop_last() == seq![host]);
    assert(joined(parts, seq![':']) == host_and_port(host, port));
    join_then_split(parts, ':');
}

} // verus!

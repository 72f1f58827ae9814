//! Reading the answers of the server's HTTP API.
use crate::external::{parse_uuid, parsed_uuid};
use crate::json::{kept, lemma_kept_all, lemma_kept_start, lemma_kept_step};
use crate::model::{MessageDto, MessageResponse};
use crate::text::{blank, is_blank};
use vstd::prelude::*;

verus! {

/// A message of a page that reads as one: its id and its author's id are UUIDs.
pub open spec fn response_ok(m: MessageResponse) -> bool {
    parsed_uuid(m.id@) is Some && parsed_uuid(m.author_id@) is Some
}

/// `d` is the confirmed message of conversation `cid` read from `m`.
pub open spec fn response_read(m: MessageResponse, cid: u128, d: MessageDto) -> bool {
    &&& parsed_uuid(m.id@) == Some(d.id)
    &&& parsed_uuid(m.author_id@) == Some(d.author_id)
    &&& d.conversation_id == cid
    &&& d.author_username == m.author_username
    &&& d.content == m.content
    &&& d.created_at == m.created_at
    &&& d.sequence_num == (match m.sequence_num {
        Some(s) => Some(s as u64),
        None => None,
    })
    &&& d.client_msg_id is None
    &&& d.is_confirmed == Some(true)
}

pub open spec fn response_ok_fn() -> spec_fn(MessageResponse) -> bool {
    |m: MessageResponse| response_ok(m)
}

pub open spec fn response_read_fn(cid: u128) -> spec_fn(MessageResponse, MessageDto) -> bool {
    |m: MessageResponse, d: MessageDto| response_read(m, cid, d)
}

fn message_of(m: MessageResponse, cid: u128) -> (r: Option<MessageDto>)
    ensures
        r is Some <==> response_ok(m),
        r matches Some(d) ==> response_read(m, cid, d),
{
    let id = parse_uuid(m.id.as_str());
    let author_id = parse_uuid(m.author_id.as_str());
    match (id, author_id) {
        (Some(id), Some(author_id)) => Some(
            MessageDto {
                id,
                author_id,
                conversation_id: cid,
                author_username: m.author_username,
                content: m.content,
                created_at: m.created_at,
                sequence_num: match m.sequence_num {
                    Some(s) => Some(#[verifier::truncate] (s as u64)),
                    None => None,
                },
                client_msg_id: None,
                is_confirmed: Some(true),
            },
        ),
        _ => None,
    }
}

/// The messages of conversation `cid` in a page of the HTTP API, in order, leaving out
/// those whose ids are not UUIDs.
pub fn messages_from_responses(cid: u128, raw: Vec<MessageResponse>) -> (r: Vec<MessageDto>)
    ensures
        kept(raw@, response_ok_fn(), response_read_fn(cid), r@),
{
    let ghost all = raw@;
    let mut rest = raw;
    let mut out: Vec<MessageDto> = Vec::new();
    let ghost mut i: int = 0;
    proof {
        lemma_kept_start(all, response_ok_fn(), response_read_fn(cid));
    }
    while rest.len() > 0
        invariant
            0 <= i <= all.len(),
            rest@ == all.skip(i),
            kept(all.take(i), response_ok_fn(), response_read_fn(cid), out@),
        decreases rest.len(),
    {
        let m = rest.remove(0);
        proof {
            assert(m == all[i]);
        }
        let r = message_of(m, cid);
        proof {
            lemma_kept_step(all, response_ok_fn(), response_read_fn(cid), out@, i, r);
            i = i + 1;
            assert(rest@ =~= all.skip(i));
        }
        if let Some(d) = r {
            out.push(d);
        }
    }
    proof {
        assert(i == all.len());
        lemma_kept_all(all, response_ok_fn(), response_read_fn(cid), out@);
    }
    out
}

/// Whether a WebSocket connection with `token` is refused before it is tried: the token
/// is blank; the refusal's text.
pub fn connect_refusal(token: &str) -> (r: Option<String>)
    ensures
        r is Some <==> blank(token@),
        r matches Some(e) ==> e@ == "Token di autenticazione vuoto"@,
{
    if is_blank(token) {
        Some(String::from_str("Token di autenticazione vuoto"))
    } else {
        None
    }
}

} // verus!

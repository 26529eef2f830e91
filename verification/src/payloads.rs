//! The JSON payloads of the ACME requests: `newAccount`, `newOrder`, and
//! finalize. Each serializer's contract gives the exact bytes produced.
use vstd::prelude::*;

use vstd::utf8::encode_utf8;

use crate::b64::{b64url, b64url_of};
use crate::json::{bool_json, json_str, lit_bytes, push_bool, push_json_str, push_lit};
use crate::types::{Identifier, NewAccount, NewOrder};

verus! {

/// The two bytes of an empty JSON object, the payload of a challenge
/// trigger (distinct from the empty POST-as-GET payload).
pub fn empty_object_payload() -> (r: Vec<u8>)
    ensures
        r@ == seq![123u8, 125u8],
{
    let mut v: Vec<u8> = Vec::new();
    v.push(123u8);
    v.push(125u8);
    v
}

/// One identifier as an order requests it.
pub open spec fn identifier_json(id: Identifier) -> Seq<u8> {
    match id {
        Identifier::Dns(v) => lit_bytes("{\"type\":\"dns\",\"value\":") + json_str(
            encode_utf8(v@),
        ) + lit_bytes("}"),
    }
}

/// A comma-separated list of identifiers.
pub open spec fn identifiers_json(ids: Seq<Identifier>) -> Seq<u8>
    decreases ids.len(),
{
    if ids.len() == 0 {
        Seq::<u8>::empty()
    } else if ids.len() == 1 {
        identifier_json(ids[0])
    } else {
        identifier_json(ids[0]) + lit_bytes(",") + identifiers_json(ids.drop_first())
    }
}

proof fn lemma_identifiers_json_push(s: Seq<Identifier>, x: Identifier)
    ensures
        identifiers_json(s.push(x)) == if s.len() == 0 {
            identifier_json(x)
        } else {
            identifiers_json(s) + lit_bytes(",") + identifiers_json(seq![x])
        },
    decreases s.len(),
{
    if s.len() == 0 {
        assert(s.push(x)[0] == x);
    } else {
        assert(s.push(x).drop_first() =~= s.drop_first().push(x));
        lemma_identifiers_json_push(s.drop_first(), x);
        if s.len() == 1 {
            assert(s.push(x)[0] == s[0]);
        } else {
            assert(s.push(x)[0] == s[0]);
        }
    }
}

/// A comma-separated list of JSON strings (the contact URIs).
pub open spec fn strings_json(ss: Seq<String>) -> Seq<u8>
    decreases ss.len(),
{
    if ss.len() == 0 {
        Seq::<u8>::empty()
    } else if ss.len() == 1 {
        json_str(encode_utf8(ss[0]@))
    } else {
        json_str(encode_utf8(ss[0]@)) + lit_bytes(",") + strings_json(ss.drop_first())
    }
}

proof fn lemma_strings_json_push(s: Seq<String>, x: String)
    ensures
        strings_json(s.push(x)) == if s.len() == 0 {
            json_str(encode_utf8(x@))
        } else {
            strings_json(s) + lit_bytes(",") + strings_json(seq![x])
        },
    decreases s.len(),
{
    if s.len() == 0 {
        assert(s.push(x)[0] == x);
    } else {
        assert(s.push(x).drop_first() =~= s.drop_first().push(x));
        lemma_strings_json_push(s.drop_first(), x);
        assert(s.push(x)[0] == s[0]);
    }
}

/// The `newOrder` payload: `{"identifiers":[...]}`.
pub open spec fn new_order_json(ids: Seq<Identifier>) -> Seq<u8> {
    lit_bytes("{\"identifiers\":[") + identifiers_json(ids) + lit_bytes("]}")
}

/// Encode a `newOrder` payload.
pub fn encode_new_order(order: &NewOrder) -> (r: Vec<u8>)
    ensures
        r@ == new_order_json(order.identifiers@),
{
    let mut out: Vec<u8> = Vec::new();
    push_lit(&mut out, "{\"identifiers\":[");
    let ghost pre = out@;
    let mut i: usize = 0;
    while i < order.identifiers.len()
        invariant
            i <= order.identifiers@.len(),
            out@ == pre + identifiers_json(order.identifiers@.take(i as int)),
        decreases order.identifiers@.len() - i,
    {
        if i > 0 {
            push_lit(&mut out, ",");
        }
        match &order.identifiers[i] {
            Identifier::Dns(v) => {
                push_lit(&mut out, "{\"type\":\"dns\",\"value\":");
                push_json_str(&mut out, v.as_str());
                push_lit(&mut out, "}");
            },
        }
        proof {
            let s = order.identifiers@.take(i as int);
            let x = order.identifiers@[i as int];
            lemma_identifiers_json_push(s, x);
            assert(seq![x].drop_first() =~= Seq::<Identifier>::empty());
            assert(identifiers_json(seq![x]) =~= identifier_json(x));
            assert(order.identifiers@.take(i + 1int) =~= s.push(x));
            assert(out@ =~= pre + identifiers_json(order.identifiers@.take(i + 1int)));
        }
        i = i + 1;
    }
    push_lit(&mut out, "]}");
    proof {
        assert(order.identifiers@.take(order.identifiers@.len() as int) =~= order.identifiers@);
        assert(out@ =~= new_order_json(order.identifiers@));
    }
    out
}

/// The finalize payload: `{"csr":"<base64url of the DER>"}`.
pub open spec fn finalize_json(csr: Seq<u8>) -> Seq<u8> {
    lit_bytes("{\"csr\":\"") + encode_utf8(b64url_of(csr)) + lit_bytes("\"}")
}

/// Encode a finalize payload from the caller's DER-encoded CSR.
pub fn encode_finalize(csr_der: &[u8]) -> (r: Vec<u8>)
    ensures
        r@ == finalize_json(csr_der@),
{
    let mut out: Vec<u8> = Vec::new();
    push_lit(&mut out, "{\"csr\":\"");
    let c64 = b64url(csr_der);
    out.extend_from_slice(c64.as_str().as_bytes());
    push_lit(&mut out, "\"}");
    proof {
        assert(out@ =~= finalize_json(csr_der@));
    }
    out
}

/// The `newAccount` payload. The `contact` member is omitted when the list
/// is empty; the external account binding, when present, is embedded as a
/// ready-made inner JWS object.
pub open spec fn new_account_json(
    contact: Seq<String>,
    tos_agreed: bool,
    only_existing: bool,
    eab: Option<Seq<u8>>,
) -> Seq<u8> {
    lit_bytes("{") + (if contact.len() == 0 {
        Seq::<u8>::empty()
    } else {
        lit_bytes("\"contact\":[") + strings_json(contact) + lit_bytes("],")
    }) + lit_bytes("\"termsOfServiceAgreed\":") + bool_json(tos_agreed) + lit_bytes(
        ",\"onlyReturnExisting\":",
    ) + bool_json(only_existing) + (match eab {
        Some(b) => lit_bytes(",\"externalAccountBinding\":") + b,
        None => Seq::<u8>::empty(),
    }) + lit_bytes("}")
}

/// Encode a `newAccount` payload; `eab_binding` is the inner JWS bytes.
#[verifier::rlimit(60)]
pub fn encode_new_account(acct: &NewAccount, eab_binding: Option<&Vec<u8>>) -> (r: Vec<u8>)
    ensures
        r@ == new_account_json(
            acct.contact@,
            acct.terms_of_service_agreed,
            acct.only_return_existing,
            match eab_binding {
                Some(b) => Some(b@),
                None => None,
            },
        ),
{
    let mut out: Vec<u8> = Vec::new();
    push_lit(&mut out, "{");
    if acct.contact.len() > 0 {
        push_lit(&mut out, "\"contact\":[");
        let ghost pre = out@;
        let mut i: usize = 0;
        while i < acct.contact.len()
            invariant
                i <= acct.contact@.len(),
                out@ == pre + strings_json(acct.contact@.take(i as int)),
            decreases acct.contact@.len() - i,
        {
            if i > 0 {
                push_lit(&mut out, ",");
            }
            push_json_str(&mut out, acct.contact[i].as_str());
            proof {
                let s = acct.contact@.take(i as int);
                let x = acct.contact@[i as int];
                lemma_strings_json_push(s, x);
                assert(seq![x].drop_first() =~= Seq::<String>::empty());
                assert(strings_json(seq![x]) =~= json_str(encode_utf8(x@)));
                assert(acct.contact@.take(i + 1int) =~= s.push(x));
                assert(out@ =~= pre + strings_json(acct.contact@.take(i + 1int)));
            }
            i = i + 1;
        }
        push_lit(&mut out, "],");
        proof {
            assert(acct.contact@.take(acct.contact@.len() as int) =~= acct.contact@);
        }
    }
    push_lit(&mut out, "\"termsOfServiceAgreed\":");
    push_bool(&mut out, acct.terms_of_service_agreed);
    push_lit(&mut out, ",\"onlyReturnExisting\":");
    push_bool(&mut out, acct.only_return_existing);
    match eab_binding {
        Some(b) => {
            push_lit(&mut out, ",\"externalAccountBinding\":");
            out.extend_from_slice(b.as_slice());
        },
        None => {},
    }
    push_lit(&mut out, "}");
    proof {
        assert(out@ =~= new_account_json(
            acct.contact@,
            acct.terms_of_service_agreed,
            acct.only_return_existing,
            match eab_binding {
                Some(b) => Some(b@),
                None => None,
            },
        ));
    }
    out
}

} // verus!

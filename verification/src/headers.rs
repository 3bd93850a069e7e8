//! Names of the headers that the gateway reads and writes.

use vstd::prelude::*;

verus! {

pub const X_FORWARDED_FOR: &'static str = "x-forwarded-for";

pub const X_REAL_IP: &'static str = "x-real-ip";

pub const X_REQUEST_ID: &'static str = "x-request-id";

pub const X_FORWARDED_PROTO: &'static str = "x-forwarded-proto";

pub const X_FORWARDED_HOST: &'static str = "x-forwarded-host";

pub const X_DEVICE_TYPE: &'static str = "x-device-type";

pub const X_USER_AGENT: &'static str = "x-user-agent";

pub const X_ACCEPT_LANGUAGE: &'static str = "x-accept-language";

pub const X_GATEWAY_TIMESTAMP: &'static str = "x-gateway-timestamp";

pub const USER_AGENT: &'static str = "user-agent";

pub const ACCEPT_LANGUAGE: &'static str = "accept-language";

pub const HOST: &'static str = "host";

/// A character that may stand in a header name as it is stored: a
/// lower-case letter, a digit, or one of the punctuation marks that HTTP
/// allows in a token.
pub open spec fn is_name_char(c: char) -> bool {
    ||| ('a' <= c && c <= 'z')
    ||| ('0' <= c && c <= '9')
    ||| c == '!'
    ||| c == '#'
    ||| c == '$'
    ||| c == '%'
    ||| c == '&'
    ||| c == '\''
    ||| c == '*'
    ||| c == '+'
    ||| c == '-'
    ||| c == '.'
    ||| c == '^'
    ||| c == '_'
    ||| c == '`'
    ||| c == '|'
    ||| c == '~'
}

/// A header name in stored form: between 1 and 64 name characters.
pub open spec fn is_header_name(name: Seq<char>) -> bool {
    &&& 1 <= name.len() <= 64
    &&& forall|i: int| 0 <= i < name.len() ==> is_name_char(#[trigger] name[i])
}

/// Every name of this module is a header name in stored form.
pub proof fn lemma_names_are_header_names()
    ensures
        is_header_name(X_FORWARDED_FOR@),
        is_header_name(X_REAL_IP@),
        is_header_name(X_REQUEST_ID@),
        is_header_name(X_FORWARDED_PROTO@),
        is_header_name(X_FORWARDED_HOST@),
        is_header_name(X_DEVICE_TYPE@),
        is_header_name(X_USER_AGENT@),
        is_header_name(X_ACCEPT_LANGUAGE@),
        is_header_name(X_GATEWAY_TIMESTAMP@),
        is_header_name(USER_AGENT@),
        is_header_name(ACCEPT_LANGUAGE@),
        is_header_name(HOST@),
{
    reveal_strlit("x-forwarded-for");
    reveal_strlit("x-real-ip");
    reveal_strlit("x-request-id");
    reveal_strlit("x-forwarded-proto");
    reveal_strlit("x-forwarded-host");
    reveal_strlit("x-device-type");
    reveal_strlit("x-user-agent");
    reveal_strlit("x-accept-language");
    reveal_strlit("x-gateway-timestamp");
    reveal_strlit("user-agent");
    reveal_strlit("accept-language");
    reveal_strlit("host");
}

/// The nine names that the gateway writes are pairwise different.
pub proof fn lemma_forwarding_names_differ()
    ensures
        forwarding_names().no_duplicates(),
{
    reveal_strlit("x-forwarded-for");
    reveal_strlit("x-real-ip");
    reveal_strlit("x-request-id");
    reveal_strlit("x-forwarded-proto");
    reveal_strlit("x-forwarded-host");
    reveal_strlit("x-device-type");
    reveal_strlit("x-user-agent");
    reveal_strlit("x-accept-language");
    reveal_strlit("x-gateway-timestamp");
    // Two names of one length differ in their third character.
    let names = forwarding_names();
    assert(names[0].len() == 15);
    assert(names[1].len() == 9);
    assert(names[2].len() == 12 && names[2][2] == 'r');
    assert(names[3].len() == 13);
    assert(names[4].len() == 12 && names[4][2] == 'u');
    assert(names[5].len() == 17 && names[5][2] == 'a');
    assert(names[6].len() == 16);
    assert(names[7].len() == 17 && names[7][2] == 'f');
    assert(names[8].len() == 19);
}

/// The names that the gateway writes, in the order in which it writes them.
pub open spec fn forwarding_names() -> Seq<Seq<char>> {
    seq![
        X_FORWARDED_FOR@,
        X_REAL_IP@,
        X_REQUEST_ID@,
        X_DEVICE_TYPE@,
        X_USER_AGENT@,
        X_ACCEPT_LANGUAGE@,
        X_FORWARDED_HOST@,
        X_FORWARDED_PROTO@,
        X_GATEWAY_TIMESTAMP@,
    ]
}

} // verus!

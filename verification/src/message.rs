//! The messages that the crawler publishes on its channel.
use vstd::prelude::*;

verus! {

/// What a message asks the crawler to do.
#[derive(Debug)]
pub enum Payload {
    /// Crawl the saved searches with these ids.
    Crawler(Vec<String>),
}

/// A message on the crawler's channel.
#[derive(Debug)]
pub struct Message {
    pub id: String,
    pub channel: String,
    pub payload: Payload,
}

/// The channel that messages are published on.
pub open spec fn crawler_channel() -> Seq<char> {
    "crawler"@
}

/// Whether `c` is a lower-case hexadecimal digit.
pub open spec fn is_lower_hex_digit(c: char) -> bool {
    (48 <= c as int <= 57) || (97 <= c as int <= 102)
}

/// Whether `s` is the hyphenated, lower-case text of a version 4 UUID:
/// 36 characters, hyphens at 8, 13, 18 and 23, hexadecimal digits elsewhere,
/// the version digit `4` at 14 and a variant digit out of `8`, `9`, `a`, `b`
/// at 19.
pub open spec fn is_uuid_v4_text(s: Seq<char>) -> bool {
    &&& s.len() == 36
    &&& forall|i: int|
        0 <= i < 36 ==> if i == 8 || i == 13 || i == 18 || i == 23 {
            #[trigger] s[i] == '-'
        } else {
            is_lower_hex_digit(s[i])
        }
    &&& s[14] == '4'
    &&& (s[19] == '8' || s[19] == '9' || s[19] == 'a' || s[19] == 'b')
}

/// `uuid::Uuid::new_v4` followed by `to_string`: a random version 4 UUID in
/// its hyphenated lower-case form. The claim is the layout that uuid's
/// source gives that text (`format_hyphenated` over the bits `new_v4` sets);
/// which UUID comes out is chance, and nothing is said of it.
#[verifier::external_body]
fn random_uuid_text() -> (r: String)
    ensures
        is_uuid_v4_text(r@),
{
    uuid::Uuid::new_v4().to_string()
}

impl Message {
    pub fn new(payload: Payload) -> (r: Message)
        ensures
            r.channel@ == crawler_channel(),
            r.payload == payload,
            is_uuid_v4_text(r.id@),
    {
        Message { id: Message::generate_id(), channel: String::from_str("crawler"), payload }
    }

    fn generate_id() -> (r: String)
        ensures
            is_uuid_v4_text(r@),
    {
        random_uuid_text()
    }
}

} // verus!

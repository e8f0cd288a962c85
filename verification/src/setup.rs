//! Messages that transfer keys to another device of the user.
use vstd::prelude::*;

use crate::message::Message;
use crate::text;

verus! {

/// The head of an ASCII armor: what kind of block it is, and the headers, each with its values.
#[derive(Debug, Clone)]
pub struct Armor {
    /// The kind of block, as it stands in the first line.
    pub typ: String,
    /// The headers, with all values that each of them has.
    pub headers: Vec<(String, Vec<String>)>,
}

/// The texts of headers.
pub open spec fn header_texts(headers: Seq<(String, Vec<String>)>) -> Seq<
    (Seq<char>, Seq<Seq<char>>),
> {
    Seq::new(
        headers.len(),
        |i: int|
            (headers[i].0@, Seq::new(headers[i].1@.len(), |j: int| headers[i].1@[j]@)),
    )
}

/// What `pgp::armor::Dearmor` finds at the head of an armored block: its kind and its headers, in
/// the order of their names. Nothing, if the bytes are no armored block.
pub uninterp spec fn dearmored(bytes: Seq<u8>) -> Option<
    (Seq<char>, Seq<(Seq<char>, Seq<Seq<char>>)>),
>;

/// Calls `pgp::armor::Dearmor::new` and reads the block to its end, so that its footer and its
/// checksum are looked at too. Believed of it: that it returns, and that the kind of the block as
/// it is displayed and the headers depend on the bytes alone. It displays `PGP MESSAGE` for a
/// whole message and for no other kind. What is decoded is not used.
#[verifier::external_body]
fn dearmor(bytes: &Vec<u8>) -> (r: Option<Armor>)
    ensures
        match r {
            Some(armor) => dearmored(bytes@) == Some((armor.typ@, header_texts(armor.headers@))),
            None => dearmored(bytes@) is None,
        },
{
    let mut block = pgp::armor::Dearmor::new(bytes.as_slice());
    let mut body = Vec::new();
    std::io::Read::read_to_end(&mut block, &mut body).ok()?;
    Some(Armor { typ: block.typ?.to_string(), headers: block.headers.into_iter().collect() })
}

/// Whether a header holds the beginning of the setup code.
pub open spec fn names_setupcode(name: Seq<char>) -> bool {
    text::lowercase(text::trimmed(name)) == "passphrase-begin"@
}

/// The last value of the last header that holds the beginning of the setup code.
pub open spec fn setupcode_header(headers: Seq<(Seq<char>, Seq<Seq<char>>)>) -> Option<Seq<char>>
    decreases headers.len(),
{
    if headers.len() == 0 {
        None
    } else if names_setupcode(headers.last().0) && headers.last().1.len() > 0 {
        Some(text::trimmed(headers.last().1.last()))
    } else {
        setupcode_header(headers.drop_last())
    }
}

/// The beginning of the setup code that an armored message has among its headers.
pub open spec fn setupcode(
    typ: Seq<char>,
    headers: Seq<(Seq<char>, Seq<Seq<char>>)>,
) -> Option<Seq<char>> {
    if typ == "PGP MESSAGE"@ {
        setupcode_header(headers)
    } else {
        None
    }
}

/// The beginning of the setup code, given the head of an armored block.
pub fn setupcode_of_armor(armor: &Armor) -> (r: Option<String>)
    ensures
        text::viewed_option(r) == setupcode(armor.typ@, header_texts(armor.headers@)),
{
    if !text::same(armor.typ.as_str(), "PGP MESSAGE") {
        return None;
    }
    let ghost headers = header_texts(armor.headers@);
    let mut n: usize = armor.headers.len();
    assert(headers.take(n as int) == headers);
    while n > 0
        invariant
            n <= armor.headers@.len(),
            headers == header_texts(armor.headers@),
            setupcode_header(headers) == setupcode_header(headers.take(n as int)),
            armor.typ@ == "PGP MESSAGE"@,
        decreases n,
    {
        let header: &(String, Vec<String>) = &armor.headers[n - 1];
        let name: String = text::to_lowercase(text::trim(header.0.as_str()));
        assert(headers.take(n as int).last() == headers[n - 1]);
        assert(headers.take(n as int).drop_last() == headers.take(n - 1));
        if text::same(name.as_str(), "passphrase-begin") && header.1.len() > 0 {
            let value: &String = &header.1[header.1.len() - 1];
            return Some(text::trim(value.as_str()).to_owned());
        }
        n -= 1;
    }
    None
}

impl Message {
    /// The beginning of the setup code that a message which transfers keys was locked with.
    /// `file` is what its file holds, if that could be read.
    pub fn get_setupcodebegin(&self, file: Option<&Vec<u8>>) -> (r: Option<String>)
        ensures
            text::viewed_option(r) == (match file {
                Some(bytes) => if self.setupmessage() {
                    match dearmored(bytes@) {
                        Some((typ, headers)) => setupcode(typ, headers),
                        None => None,
                    }
                } else {
                    None
                },
                None => None,
            }),
    {
        if !self.is_setupmessage() {
            return None;
        }
        match file {
            Some(bytes) => match dearmor(bytes) {
                Some(armor) => setupcode_of_armor(&armor),
                None => None,
            },
            None => None,
        }
    }
}

/// Only an armored message has a setup code. It is the last value of the last header of the right
/// name: each further header takes the place of those before it if it has that name and a value, and
/// changes nothing otherwise.
pub proof fn the_last_header_counts(
    typ: Seq<char>,
    headers: Seq<(Seq<char>, Seq<Seq<char>>)>,
    name: Seq<char>,
    values: Seq<Seq<char>>,
)
    ensures
        typ != "PGP MESSAGE"@ ==> setupcode(typ, headers) is None,
        setupcode("PGP MESSAGE"@, Seq::empty()) is None,
        text::lowercase(text::trimmed(name)) == "passphrase-begin"@ && values.len() > 0
            ==> setupcode("PGP MESSAGE"@, headers.push((name, values))) == Some(
            text::trimmed(values.last()),
        ),
        text::lowercase(text::trimmed(name)) != "passphrase-begin"@ || values.len() == 0
            ==> setupcode("PGP MESSAGE"@, headers.push((name, values))) == setupcode(
            "PGP MESSAGE"@,
            headers,
        ),
{
    assert(headers.push((name, values)).drop_last() =~= headers);
}

/// The texts of headers are those of all names and all values, in their order.
pub proof fn headers_are_taken_as_they_are(headers: Seq<(String, Vec<String>)>, i: int, j: int)
    requires
        0 <= i < headers.len(),
        0 <= j < headers[i].1@.len(),
    ensures
        header_texts(headers).len() == headers.len(),
        header_texts(headers)[i].0 == headers[i].0@,
        header_texts(headers)[i].1.len() == headers[i].1@.len(),
        header_texts(headers)[i].1[j] == headers[i].1@[j]@,
{
}

} // verus!

//! The parameters of a message: values by key, and the text that they are stored as.
use vstd::prelude::*;

use crate::constants::SystemMessage;
use crate::context::Context;
use crate::path;
use crate::text;

verus! {

/// The key of a parameter.
#[derive(Debug, Clone, Copy, PartialEq, Eq, Structural)]
pub enum Param {
    /// The file that the message carries.
    File,
    /// The width of an image or a video.
    Width,
    /// The height of an image or a video.
    Height,
    /// How long a recording lasts, in milliseconds.
    Duration,
    /// The MIME type of the file.
    MimeType,
    /// The message is encrypted end to end; an outgoing one is sent in no other way.
    GuaranteeE2ee,
    /// What went wrong with the encryption of the message.
    ErroneousE2ee,
    /// The message is to be sent unencrypted.
    ForcePlaintext,
    /// The sender asks for a receipt.
    WantsMdn,
    /// The message was forwarded.
    Forwarded,
    /// The command that the message carries.
    Cmd,
    /// First argument of the command.
    Arg,
    /// Second argument of the command.
    Arg2,
    /// Third argument of the command.
    Arg3,
    /// Fourth argument of the command.
    Arg4,
    /// Why the message could not be sent.
    Error,
    /// Forwarded copies that wait for this message to be prepared.
    PrepForwards,
    /// Latitude of a location that the message sets.
    SetLatitude,
    /// Longitude of a location that the message sets.
    SetLongitude,
    /// The folder on the server that a job works on.
    ServerFolder,
    /// The message on the server that a job works on.
    ServerUid,
    /// The job also moves the message.
    AlsoMove,
    /// Whom a job sends to.
    Recipients,
    /// The group is not known to its members yet.
    Unpromoted,
    /// The picture of a group or a contact.
    ProfileImage,
    /// The chat is the one with oneself.
    Selftalk,
    /// The authentication that a code holds.
    Auth,
    /// The group that a code holds.
    GroupId,
    /// The name of the group that a code holds.
    GroupName,
}

impl Param {
    /// The letter that stands for the key in a stored text.
    pub open spec fn letter(self) -> char {
        match self {
            Param::File => 'f',
            Param::Width => 'w',
            Param::Height => 'h',
            Param::Duration => 'd',
            Param::MimeType => 'm',
            Param::GuaranteeE2ee => 'c',
            Param::ErroneousE2ee => 'e',
            Param::ForcePlaintext => 'u',
            Param::WantsMdn => 'r',
            Param::Forwarded => 'a',
            Param::Cmd => 'S',
            Param::Arg => 'E',
            Param::Arg2 => 'F',
            Param::Arg3 => 'G',
            Param::Arg4 => 'H',
            Param::Error => 'L',
            Param::PrepForwards => 'P',
            Param::SetLatitude => 'l',
            Param::SetLongitude => 'n',
            Param::ServerFolder => 'Z',
            Param::ServerUid => 'z',
            Param::AlsoMove => 'M',
            Param::Recipients => 'R',
            Param::Unpromoted => 'U',
            Param::ProfileImage => 'i',
            Param::Selftalk => 'K',
            Param::Auth => 's',
            Param::GroupId => 'x',
            Param::GroupName => 'g',
        }
    }

    /// The key that a letter stands for.
    pub open spec fn of_letter(c: char) -> Option<Param> {
        if c == 'f' {
            Some(Param::File)
        } else if c == 'w' {
            Some(Param::Width)
        } else if c == 'h' {
            Some(Param::Height)
        } else if c == 'd' {
            Some(Param::Duration)
        } else if c == 'm' {
            Some(Param::MimeType)
        } else if c == 'c' {
            Some(Param::GuaranteeE2ee)
        } else if c == 'e' {
            Some(Param::ErroneousE2ee)
        } else if c == 'u' {
            Some(Param::ForcePlaintext)
        } else if c == 'r' {
            Some(Param::WantsMdn)
        } else if c == 'a' {
            Some(Param::Forwarded)
        } else if c == 'S' {
            Some(Param::Cmd)
        } else if c == 'E' {
            Some(Param::Arg)
        } else if c == 'F' {
            Some(Param::Arg2)
        } else if c == 'G' {
            Some(Param::Arg3)
        } else if c == 'H' {
            Some(Param::Arg4)
        } else if c == 'L' {
            Some(Param::Error)
        } else if c == 'P' {
            Some(Param::PrepForwards)
        } else if c == 'l' {
            Some(Param::SetLatitude)
        } else if c == 'n' {
            Some(Param::SetLongitude)
        } else if c == 'Z' {
            Some(Param::ServerFolder)
        } else if c == 'z' {
            Some(Param::ServerUid)
        } else if c == 'M' {
            Some(Param::AlsoMove)
        } else if c == 'R' {
            Some(Param::Recipients)
        } else if c == 'U' {
            Some(Param::Unpromoted)
        } else if c == 'i' {
            Some(Param::ProfileImage)
        } else if c == 'K' {
            Some(Param::Selftalk)
        } else if c == 's' {
            Some(Param::Auth)
        } else if c == 'x' {
            Some(Param::GroupId)
        } else if c == 'g' {
            Some(Param::GroupName)
        } else {
            None
        }
    }

    /// The key that a letter stands for.
    pub fn from_letter(c: char) -> (r: Option<Param>)
        ensures
            r == Param::of_letter(c),
    {
        match c {
            'f' => Some(Param::File),
            'w' => Some(Param::Width),
            'h' => Some(Param::Height),
            'd' => Some(Param::Duration),
            'm' => Some(Param::MimeType),
            'c' => Some(Param::GuaranteeE2ee),
            'e' => Some(Param::ErroneousE2ee),
            'u' => Some(Param::ForcePlaintext),
            'r' => Some(Param::WantsMdn),
            'a' => Some(Param::Forwarded),
            'S' => Some(Param::Cmd),
            'E' => Some(Param::Arg),
            'F' => Some(Param::Arg2),
            'G' => Some(Param::Arg3),
            'H' => Some(Param::Arg4),
            'L' => Some(Param::Error),
            'P' => Some(Param::PrepForwards),
            'l' => Some(Param::SetLatitude),
            'n' => Some(Param::SetLongitude),
            'Z' => Some(Param::ServerFolder),
            'z' => Some(Param::ServerUid),
            'M' => Some(Param::AlsoMove),
            'R' => Some(Param::Recipients),
            'U' => Some(Param::Unpromoted),
            'i' => Some(Param::ProfileImage),
            'K' => Some(Param::Selftalk),
            's' => Some(Param::Auth),
            'x' => Some(Param::GroupId),
            'g' => Some(Param::GroupName),
            _ => None,
        }
    }

    /// The letter of the key, as a text.
    pub fn letter_text(self) -> (r: &'static str)
        ensures
            r@ == seq![self.letter()],
    {
        proof {
            reveal_strlit("f");
            reveal_strlit("w");
            reveal_strlit("h");
            reveal_strlit("d");
            reveal_strlit("m");
            reveal_strlit("c");
            reveal_strlit("e");
            reveal_strlit("u");
            reveal_strlit("r");
            reveal_strlit("a");
            reveal_strlit("S");
            reveal_strlit("E");
            reveal_strlit("F");
            reveal_strlit("G");
            reveal_strlit("H");
            reveal_strlit("L");
            reveal_strlit("P");
            reveal_strlit("l");
            reveal_strlit("n");
            reveal_strlit("Z");
            reveal_strlit("z");
            reveal_strlit("M");
            reveal_strlit("R");
            reveal_strlit("U");
            reveal_strlit("i");
            reveal_strlit("K");
            reveal_strlit("s");
            reveal_strlit("x");
            reveal_strlit("g");
        }
        match self {
            Param::File => "f",
            Param::Width => "w",
            Param::Height => "h",
            Param::Duration => "d",
            Param::MimeType => "m",
            Param::GuaranteeE2ee => "c",
            Param::ErroneousE2ee => "e",
            Param::ForcePlaintext => "u",
            Param::WantsMdn => "r",
            Param::Forwarded => "a",
            Param::Cmd => "S",
            Param::Arg => "E",
            Param::Arg2 => "F",
            Param::Arg3 => "G",
            Param::Arg4 => "H",
            Param::Error => "L",
            Param::PrepForwards => "P",
            Param::SetLatitude => "l",
            Param::SetLongitude => "n",
            Param::ServerFolder => "Z",
            Param::ServerUid => "z",
            Param::AlsoMove => "M",
            Param::Recipients => "R",
            Param::Unpromoted => "U",
            Param::ProfileImage => "i",
            Param::Selftalk => "K",
            Param::Auth => "s",
            Param::GroupId => "x",
            Param::GroupName => "g",
        }
    }
}

/// A letter stands for one key, and every letter is an ASCII letter.
pub proof fn param_letter_round_trip(p: Param)
    ensures
        Param::of_letter(p.letter()) == Some(p),
        'A' <= p.letter() <= 'Z' || 'a' <= p.letter() <= 'z',
{
}

/// Values by key.
#[derive(Debug, Clone)]
pub struct Params {
    inner: Vec<(Param, String)>,
}

/// The values that a list of pairs holds: of two pairs with one key, the first counts.
pub open spec fn first_values(pairs: Seq<(Param, String)>) -> Map<Param, Seq<char>>
    decreases pairs.len(),
{
    if pairs.len() == 0 {
        Map::empty()
    } else {
        first_values(pairs.skip(1)).insert(pairs[0].0, pairs[0].1@)
    }
}

impl View for Params {
    type V = Map<Param, Seq<char>>;

    closed spec fn view(&self) -> Map<Param, Seq<char>> {
        first_values(self.inner@)
    }
}

proof fn lemma_first_values(pairs: Seq<(Param, String)>, i: int)
    requires
        0 <= i < pairs.len(),
        forall|j: int| 0 <= j < i ==> (#[trigger] pairs[j]).0 != pairs[i].0,
    ensures
        first_values(pairs).contains_key(pairs[i].0),
        first_values(pairs)[pairs[i].0] == pairs[i].1@,
        forall|v: String|
            #![trigger pairs.update(i, (pairs[i].0, v))]
            first_values(pairs.update(i, (pairs[i].0, v))) == first_values(pairs).insert(
                pairs[i].0,
                v@,
            ),
    decreases pairs.len(),
{
    let key = pairs[i].0;
    let rest = pairs.skip(1);
    if i > 0 {
        assert(rest[i - 1] == pairs[i]);
        assert forall|j: int| 0 <= j < i - 1 implies (#[trigger] rest[j]).0 != rest[i - 1].0 by {
            assert(rest[j] == pairs[j + 1]);
        }
        lemma_first_values(rest, i - 1);
        assert(pairs[0].0 != key);
    }
    assert forall|v: String|
        #![trigger pairs.update(i, (pairs[i].0, v))]
        first_values(pairs.update(i, (pairs[i].0, v))) == first_values(pairs).insert(
            pairs[i].0,
            v@,
        ) by {
        let changed = pairs.update(i, (key, v));
        if i == 0 {
            assert(changed.skip(1) == rest);
            assert(first_values(changed) =~= first_values(pairs).insert(key, v@));
        } else {
            assert(changed.skip(1) == rest.update(i - 1, (rest[i - 1].0, v)));
            assert(first_values(changed) =~= first_values(pairs).insert(key, v@));
        }
    }
}

proof fn lemma_absent(pairs: Seq<(Param, String)>, key: Param)
    requires
        forall|j: int| 0 <= j < pairs.len() ==> (#[trigger] pairs[j]).0 != key,
    ensures
        !first_values(pairs).contains_key(key),
        forall|v: String|
            #![trigger pairs.push((key, v))]
            first_values(pairs.push((key, v))) == first_values(pairs).insert(key, v@),
    decreases pairs.len(),
{
    let rest = pairs.skip(1);
    if pairs.len() > 0 {
        assert forall|j: int| 0 <= j < rest.len() implies (#[trigger] rest[j]).0 != key by {
            assert(rest[j] == pairs[j + 1]);
        }
        lemma_absent(rest, key);
        assert(pairs[0].0 != key);
    }
    assert forall|v: String|
        #![trigger pairs.push((key, v))]
        first_values(pairs.push((key, v))) == first_values(pairs).insert(key, v@) by {
        let longer = pairs.push((key, v));
        if pairs.len() == 0 {
            assert(longer.skip(1) == pairs);
            assert(first_values(pairs) == Map::<Param, Seq<char>>::empty());
            assert(first_values(longer) =~= first_values(pairs).insert(key, v@));
        } else {
            assert(longer.skip(1) == rest.push((key, v)));
            assert(first_values(longer) =~= first_values(pairs).insert(key, v@));
        }
    }
}

/// The value that a key has.
pub open spec fn value_of(m: Map<Param, Seq<char>>, key: Param) -> Option<Seq<char>> {
    if m.contains_key(key) {
        Some(m[key])
    } else {
        None
    }
}

/// The integer that a key has for its value.
pub open spec fn int_of(m: Map<Param, Seq<char>>, key: Param) -> Option<i32> {
    if m.contains_key(key) {
        text::parsed_i32(m[key])
    } else {
        None
    }
}

/// The integer that a key has for its value, or zero.
pub open spec fn int_or_zero(m: Map<Param, Seq<char>>, key: Param) -> int {
    match int_of(m, key) {
        Some(n) => n as int,
        None => 0,
    }
}

/// The command that the parameters hold.
pub open spec fn cmd_of(m: Map<Param, Seq<char>>) -> SystemMessage {
    SystemMessage::of_code(int_or_zero(m, Param::Cmd))
}

impl Params {
    /// No parameters.
    pub fn new() -> (r: Params)
        ensures
            r@ == Map::<Param, Seq<char>>::empty(),
    {
        Params { inner: Vec::new() }
    }

    fn position(&self, key: Param) -> (r: Option<usize>)
        ensures
            match r {
                Some(i) => {
                    &&& i < self.inner@.len()
                    &&& self.inner@[i as int].0 == key
                    &&& forall|j: int| 0 <= j < i ==> (#[trigger] self.inner@[j]).0 != key
                },
                None => forall|j: int|
                    0 <= j < self.inner@.len() ==> (#[trigger] self.inner@[j]).0 != key,
            },
    {
        let mut i: usize = 0;
        while i < self.inner.len()
            invariant
                i <= self.inner@.len(),
                forall|j: int| 0 <= j < i ==> (#[trigger] self.inner@[j]).0 != key,
            decreases self.inner.len() - i,
        {
            if self.inner[i].0 == key {
                return Some(i);
            }
            i += 1;
        }
        None
    }

    /// The value that a key has.
    pub fn get(&self, key: Param) -> (r: Option<&str>)
        ensures
            match r {
                Some(v) => value_of(self@, key) == Some(v@),
                None => value_of(self@, key) is None,
            },
    {
        match self.position(key) {
            Some(i) => {
                proof {
                    lemma_first_values(self.inner@, i as int);
                }
                Some(self.inner[i].1.as_str())
            },
            None => {
                proof {
                    lemma_absent(self.inner@, key);
                }
                None
            },
        }
    }

    /// Gives a key a value.
    pub fn set(&mut self, key: Param, value: &str)
        ensures
            final(self)@ == old(self)@.insert(key, value@),
    {
        let ghost before = self.inner@;
        let value: String = value.to_owned();
        match self.position(key) {
            Some(i) => {
                proof {
                    lemma_first_values(before, i as int);
                    assert(before.update(i as int, (before[i as int].0, value)) == before.update(
                        i as int,
                        (key, value),
                    ));
                }
                self.inner.set(i, (key, value));
            },
            None => {
                proof {
                    lemma_absent(before, key);
                    assert(first_values(before.push((key, value))) == first_values(before).insert(
                        key,
                        value@,
                    ));
                }
                self.inner.push((key, value));
            },
        }
    }

    /// The integer that a key has for its value.
    pub fn get_int(&self, key: Param) -> (r: Option<i32>)
        ensures
            r == int_of(self@, key),
    {
        match self.get(key) {
            Some(v) => text::parse_i32(v),
            None => None,
        }
    }

    /// The integer that a key has for its value, or zero.
    pub fn get_int_or_zero(&self, key: Param) -> (r: i32)
        ensures
            r == int_or_zero(self@, key),
    {
        match self.get_int(key) {
            Some(n) => n,
            None => 0,
        }
    }

    /// Gives a key an integer for its value.
    pub fn set_int(&mut self, key: Param, value: i32)
        ensures
            final(self)@ == old(self)@.insert(key, text::signed_decimal(value as int)),
    {
        let value: String = text::signed_text(value);
        self.set(key, value.as_str());
    }

    /// The command that the parameters hold.
    pub fn get_cmd(&self) -> (r: SystemMessage)
        ensures
            r == cmd_of(self@),
    {
        SystemMessage::from_i64(self.get_int_or_zero(Param::Cmd) as i64)
    }

    /// Makes the parameters hold a command.
    pub fn set_cmd(&mut self, value: SystemMessage)
        ensures
            final(self)@ == old(self)@.insert(Param::Cmd, text::signed_decimal(value.code())),
            cmd_of(final(self)@) == value,
    {
        self.set_int(Param::Cmd, value.to_i32());
        proof {
            text::decimal_round_trip(value.code() as i32);
        }
    }
}

/// A reference to a file that names none in the directory of files.
#[derive(Debug, Clone, Copy, PartialEq, Eq, Structural)]
pub struct WrongBlobName;

/// Whether a file of this name may lie in the directory of files.
pub open spec fn acceptable_blob_name(name: Seq<char>) -> bool {
    forall|i: int| 0 <= i < name.len() ==> name[i] != '/' && name[i] != '\\' && name[i] != '\0'
}

/// The path of the file that a reference names. References that begin with `$BLOBDIR/` name files
/// in the directory of files, all others are paths.
pub open spec fn referenced_path(value: Seq<char>, blobdir: Seq<char>) -> Result<
    Seq<char>,
    WrongBlobName,
> {
    if "$BLOBDIR/"@.is_prefix_of(value) {
        let name = value.skip("$BLOBDIR/"@.len() as int);
        if acceptable_blob_name(name) {
            Ok(path::joined(blobdir, name))
        } else {
            Err(WrongBlobName)
        }
    } else {
        Ok(value)
    }
}

/// The path of the file that a parameter refers to: none without the parameter.
pub open spec fn path_of(m: Map<Param, Seq<char>>, key: Param, blobdir: Seq<char>) -> Result<
    Option<Seq<char>>,
    WrongBlobName,
> {
    if m.contains_key(key) {
        match referenced_path(m[key], blobdir) {
            Ok(p) => Ok(Some(p)),
            Err(e) => Err(e),
        }
    } else {
        Ok(None)
    }
}

fn resolve_path(value: &str, blobdir: &str) -> (r: Result<String, WrongBlobName>)
    ensures
        match r {
            Ok(p) => referenced_path(value@, blobdir@) == Ok::<Seq<char>, WrongBlobName>(p@),
            Err(e) => referenced_path(value@, blobdir@) == Err::<Seq<char>, WrongBlobName>(e),
        },
{
    let prefix: Vec<char> = text::chars("$BLOBDIR/");
    let cs: Vec<char> = text::chars(value);
    let mut i: usize = 0;
    while i < prefix.len()
        invariant
            i <= prefix@.len(),
            i <= cs@.len(),
            prefix@ == "$BLOBDIR/"@,
            cs@ == value@,
            forall|j: int| 0 <= j < i ==> cs@[j] == prefix@[j],
        decreases prefix.len() - i,
    {
        if i >= cs.len() || cs[i] != prefix[i] {
            assert(!"$BLOBDIR/"@.is_prefix_of(value@)) by {
                if "$BLOBDIR/"@.is_prefix_of(value@) {
                    assert(value@.subrange(0, prefix@.len() as int)[i as int] == prefix@[i as int]);
                }
            }
            return Ok(value.to_owned());
        }
        i += 1;
    }
    assert("$BLOBDIR/"@ =~= value@.subrange(0, prefix@.len() as int));
    let start: usize = i;
    let ghost name = value@.skip(start as int);
    while i < cs.len()
        invariant
            start <= i <= cs@.len(),
            cs@ == value@,
            start == "$BLOBDIR/"@.len(),
            name == value@.skip(start as int),
            "$BLOBDIR/"@.is_prefix_of(value@),
            forall|j: int|
                0 <= j < i - start ==> name[j] != '/' && name[j] != '\\' && name[j] != '\0',
        decreases cs.len() - i,
    {
        let c: char = cs[i];
        assert(name[i - start] == c);
        if c == '/' || c == '\\' || c == '\0' {
            return Err(WrongBlobName);
        }
        i += 1;
    }
    assert(name == value@.subrange(start as int, cs@.len() as int));
    Ok(path::join(blobdir, value.substring_char(start, cs.len())))
}

impl Params {
    /// The path of the file that a parameter refers to.
    pub fn get_path(&self, key: Param, context: &Context) -> (r: Result<
        Option<String>,
        WrongBlobName,
    >)
        ensures
            match r {
                Ok(Some(p)) => path_of(self@, key, context.blobdir@) == Ok::<
                    Option<Seq<char>>,
                    WrongBlobName,
                >(Some(p@)),
                Ok(None) => path_of(self@, key, context.blobdir@) == Ok::<
                    Option<Seq<char>>,
                    WrongBlobName,
                >(None),
                Err(e) => path_of(self@, key, context.blobdir@) == Err::<
                    Option<Seq<char>>,
                    WrongBlobName,
                >(e),
            },
    {
        match self.get(key) {
            Some(value) => match resolve_path(value, context.blobdir.as_str()) {
                Ok(p) => Ok(Some(p)),
                Err(e) => Err(e),
            },
            None => Ok(None),
        }
    }
}

impl Default for Params {
    fn default() -> (r: Self)
        ensures
            r@ == Map::<Param, Seq<char>>::empty(),
    {
        Params::new()
    }
}

/// A reference that begins with `$BLOBDIR/` names a file in the directory of files, if what follows
/// is a plain name, and nothing otherwise. Any other reference is a path itself.
pub proof fn references_name_files(name: Seq<char>, other: Seq<char>, blobdir: Seq<char>)
    ensures
        ({
            let reference = seq!['$', 'B', 'L', 'O', 'B', 'D', 'I', 'R', '/'] + name;
            if name.contains('/') || name.contains('\\') || name.contains('\0') {
                referenced_path(reference, blobdir) == Err::<Seq<char>, WrongBlobName>(WrongBlobName)
            } else {
                referenced_path(reference, blobdir) == Ok::<Seq<char>, WrongBlobName>(
                    path::joined(blobdir, name),
                )
            }
        }),
        !seq!['$', 'B', 'L', 'O', 'B', 'D', 'I', 'R', '/'].is_prefix_of(other) ==> referenced_path(
            other,
            blobdir,
        ) == Ok::<Seq<char>, WrongBlobName>(other),
{
    reveal_strlit("$BLOBDIR/");
    let prefix = seq!['$', 'B', 'L', 'O', 'B', 'D', 'I', 'R', '/'];
    assert("$BLOBDIR/"@ =~= prefix);
    let reference = prefix + name;
    assert(reference.subrange(0, 9) =~= prefix);
    assert(reference.skip(9) =~= name);
    if name.contains('/') {
        let i = name.index_of('/');
        assert(name[i] == '/');
    } else if name.contains('\\') {
        let i = name.index_of('\\');
        assert(name[i] == '\\');
    } else if name.contains('\0') {
        let i = name.index_of('\0');
        assert(name[i] == '\0');
    } else {
        assert forall|i: int| 0 <= i < name.len() implies name[i] != '/' && name[i] != '\\'
            && name[i] != '\0' by {
            assert(name.contains(name[i]));
        }
    }
}

/// An integer that is set under a key is read from it, and the other keys keep what they had. A key
/// without a value, or with one that is no integer, counts for zero.
pub proof fn integers_are_kept(m: Map<Param, Seq<char>>, key: Param, value: i32, other: Param)
    ensures
        int_or_zero(m.insert(key, text::signed_decimal(value as int)), key) == value,
        other != key ==> value_of(m.insert(key, text::signed_decimal(value as int)), other)
            == value_of(m, other),
        value_of(m, key) is None ==> int_or_zero(m, key) == 0,
        value_of(m, key) matches Some(v) ==> int_or_zero(m, key) == (match text::parsed_i32(v) {
            Some(n) => n as int,
            None => 0,
        }),
        m.contains_key(key) ==> value_of(m, key) == Some(m[key]),
        !m.contains_key(key) ==> value_of(m, key) is None,
{
    text::decimal_round_trip(value);
}

/// The commands are told by the number under the key for commands: 6 for a message that transfers
/// keys, 9 for one that is only a location, and none for zero.
pub proof fn commands_are_numbers(m: Map<Param, Seq<char>>)
    ensures
        cmd_of(m) == SystemMessage::AutocryptSetupMessage <==> int_or_zero(m, Param::Cmd) == 6,
        cmd_of(m) == SystemMessage::LocationOnly <==> int_or_zero(m, Param::Cmd) == 9,
        cmd_of(m) == SystemMessage::Unknown <==> !(2 <= int_or_zero(m, Param::Cmd) <= 9),
{
}

/// The letters of the keys that messages are shown by.
pub proof fn letters_of_keys()
    ensures
        Param::File.letter() == 'f',
        Param::Width.letter() == 'w',
        Param::Height.letter() == 'h',
        Param::Duration.letter() == 'd',
        Param::MimeType.letter() == 'm',
        Param::GuaranteeE2ee.letter() == 'c',
        Param::ErroneousE2ee.letter() == 'e',
        Param::Forwarded.letter() == 'a',
        Param::Cmd.letter() == 'S',
        Param::Error.letter() == 'L',
        Param::SetLatitude.letter() == 'l',
        Param::SetLongitude.letter() == 'n',
{
}

/// The path of a parameter is the one that its value refers to, whatever key it has. Without a value
/// there is none.
pub proof fn paths_of_parameters(m: Map<Param, Seq<char>>, key: Param, blobdir: Seq<char>)
    ensures
        !m.contains_key(key) ==> path_of(m, key, blobdir) == Ok::<Option<Seq<char>>, WrongBlobName>(
            None,
        ),
        m.contains_key(key) ==> match referenced_path(m[key], blobdir) {
            Ok(p) => path_of(m, key, blobdir) == Ok::<Option<Seq<char>>, WrongBlobName>(Some(p)),
            Err(_) => path_of(m, key, blobdir) is Err,
        },
{
}

} // verus!

//! The records of the worklist: one proxy endpoint and one identity per
//! line, fields separated by colons.

use vstd::prelude::*;
use vstd::string::StrSliceExecFns;
use vstd::string::StringExecFns;
use crate::errors::TaskError;
use crate::text::push_char;

verus! {

/// The fields of `text`, which `separator` separates: a new field begins
/// after each separator, so a text without one is a single field and a
/// text that ends in one has an empty last field.
pub open spec fn split_on(text: Seq<char>, separator: char) -> Seq<Seq<char>>
    decreases text.len(),
{
    if text.len() == 0 {
        seq![Seq::empty()]
    } else {
        let before = split_on(text.drop_last(), separator);
        if text.last() == separator {
            before.push(Seq::empty())
        } else {
            before.drop_last().push(before.last().push(text.last()))
        }
    }
}

/// The texts that `fields` hold.
pub open spec fn texts(fields: Seq<String>) -> Seq<Seq<char>> {
    Seq::new(fields.len(), |i: int| fields[i]@)
}

/// A text has at least one field, whatever separates them.
pub proof fn lemma_split_nonempty(text: Seq<char>, separator: char)
    ensures
        split_on(text, separator).len() >= 1,
    decreases text.len(),
{
    if text.len() > 0 {
        lemma_split_nonempty(text.drop_last(), separator);
    }
}

/// Splitting a text that grew by one character: a separator opens a new,
/// empty field; any other character joins the last field.
pub proof fn lemma_split_step(text: Seq<char>, separator: char, upto: int)
    requires
        0 <= upto < text.len(),
    ensures
        split_on(text.take(upto + 1), separator) == if text[upto] == separator {
            split_on(text.take(upto), separator).push(Seq::empty())
        } else {
            split_on(text.take(upto), separator).drop_last().push(
                split_on(text.take(upto), separator).last().push(text[upto]),
            )
        },
{
    assert(text.take(upto + 1).drop_last() =~= text.take(upto));
}

/// Splits `line` at each `separator`.
pub fn split_fields(line: &str, separator: char) -> (fields: Vec<String>)
    ensures
        texts(fields@) == split_on(line@, separator),
{
    let mut fields: Vec<String> = Vec::new();
    let mut field = String::new();
    proof {
        assert(line@.take(0) =~= Seq::<char>::empty());
        assert(texts(fields@).push(field@) =~= seq![Seq::<char>::empty()]);
    }
    for c in it: line.chars()
        invariant
            it.seq() == line@,
            split_on(line@.take(it.index() as int), separator) == texts(fields@).push(field@),
    {
        proof {
            lemma_split_step(line@, separator, it.index() as int);
        }
        let ghost before = texts(fields@).push(field@);
        if c == separator {
            proof {
                assert(texts(fields@.push(field)) =~= before);
            }
            fields.push(field);
            field = String::new();
        } else {
            proof {
                assert(before.drop_last() =~= texts(fields@));
            }
            push_char(&mut field, c);
        }
    }
    proof {
        assert(line@.take(line@.len() as int) =~= line@);
        assert(texts(fields@.push(field)) =~= texts(fields@).push(field@));
    }
    fields.push(field);
    fields
}

/// The character that separates the fields of a record.
pub const FIELD_SEPARATOR: char = ':';

/// One proxy, as its record names it. Nothing in it changes once parsed.
#[derive(Clone, Debug)]
pub struct ProxyEndpoint {
    pub host: String,
    pub port: String,
    pub username: String,
    pub password: String,
}

/// One identity: the identifier from its record, and the referral code
/// that is shared by all.
#[derive(Clone, Debug)]
pub struct Identity {
    pub email: String,
    pub invite_code: String,
}

/// One unit of work: an identity and the proxy that its task goes through.
#[derive(Clone, Debug)]
pub struct WorkItem {
    pub endpoint: ProxyEndpoint,
    pub identity: Identity,
}

impl ProxyEndpoint {
    /// The four fields, in the order of the record.
    pub open spec fn fields(self) -> Seq<Seq<char>> {
        seq![self.host@, self.port@, self.username@, self.password@]
    }
}

/// Whether `line` is a proxy record: `host:port:username:password`.
pub open spec fn is_proxy_record(line: Seq<char>) -> bool {
    split_on(line, FIELD_SEPARATOR).len() == 4
}

/// Whether `line` is an identity record: `identifier:auxiliary-field`.
pub open spec fn is_identity_record(line: Seq<char>) -> bool {
    split_on(line, FIELD_SEPARATOR).len() == 2
}

/// Whether `parsed` is what the two records of one pairing, and the
/// shared referral code, stand for: the work item with their fields where
/// both records are well formed, and `MalformedInputRecord` where one is
/// not.
pub open spec fn describes(
    parsed: Result<WorkItem, TaskError>,
    proxy_line: Seq<char>,
    identity_line: Seq<char>,
    invite_code: Seq<char>,
) -> bool {
    match parsed {
        Ok(item) => {
            &&& is_proxy_record(proxy_line)
            &&& is_identity_record(identity_line)
            &&& item.endpoint.fields() == split_on(proxy_line, FIELD_SEPARATOR)
            &&& item.identity.email@ == split_on(identity_line, FIELD_SEPARATOR)[0]
            &&& item.identity.invite_code@ == invite_code
        },
        Err(error) => {
            &&& error == TaskError::MalformedInputRecord
            &&& !(is_proxy_record(proxy_line) && is_identity_record(identity_line))
        },
    }
}

/// Parses one proxy record. A record with any other number of fields
/// than four is malformed.
pub fn parse_proxy_record(line: &str) -> (parsed: Result<ProxyEndpoint, TaskError>)
    ensures
        match parsed {
            Ok(endpoint) => is_proxy_record(line@) && endpoint.fields() == split_on(
                line@,
                FIELD_SEPARATOR,
            ),
            Err(error) => error == TaskError::MalformedInputRecord && !is_proxy_record(line@),
        },
{
    let fields = split_fields(line, FIELD_SEPARATOR);
    if fields.len() != 4 {
        return Err(TaskError::MalformedInputRecord);
    }
    let endpoint = ProxyEndpoint {
        host: fields[0].clone(),
        port: fields[1].clone(),
        username: fields[2].clone(),
        password: fields[3].clone(),
    };
    proof {
        let found = texts(fields@);
        assert(found[0] == fields@[0]@);
        assert(found[1] == fields@[1]@);
        assert(found[2] == fields@[2]@);
        assert(found[3] == fields@[3]@);
        assert(endpoint.fields() =~= found);
    }
    Ok(endpoint)
}

/// Parses one identity record and joins the shared referral code to its
/// identifier. A record with any other number of fields than two is
/// malformed.
pub fn parse_identity_record(line: &str, invite_code: &str) -> (parsed: Result<
    Identity,
    TaskError,
>)
    ensures
        match parsed {
            Ok(identity) => is_identity_record(line@) && identity.email@ == split_on(
                line@,
                FIELD_SEPARATOR,
            )[0] && identity.invite_code@ == invite_code@,
            Err(error) => error == TaskError::MalformedInputRecord && !is_identity_record(line@),
        },
{
    let fields = split_fields(line, FIELD_SEPARATOR);
    if fields.len() != 2 {
        return Err(TaskError::MalformedInputRecord);
    }
    let identity = Identity { email: fields[0].clone(), invite_code: String::from_str(invite_code) };
    proof {
        assert(texts(fields@)[0] == fields@[0]@);
    }
    Ok(identity)
}

/// Parses the two records of one pairing.
pub fn parse_pairing(proxy_line: &str, identity_line: &str, invite_code: &str) -> (parsed: Result<
    WorkItem,
    TaskError,
>)
    ensures
        describes(parsed, proxy_line@, identity_line@, invite_code@),
{
    let endpoint = match parse_proxy_record(proxy_line) {
        Ok(endpoint) => endpoint,
        Err(error) => {
            return Err(error);
        },
    };
    let identity = match parse_identity_record(identity_line, invite_code) {
        Ok(identity) => identity,
        Err(error) => {
            return Err(error);
        },
    };
    Ok(WorkItem { endpoint, identity })
}

/// Pairs proxy records with identity records by their place in the two
/// lists, as far as both reach. Each pairing is parsed on its own: a
/// malformed record spoils its own pairing and no other.
pub fn pair_records(
    proxy_lines: &Vec<String>,
    identity_lines: &Vec<String>,
    invite_code: &str,
) -> (worklist: Vec<Result<WorkItem, TaskError>>)
    ensures
        worklist.len() == if proxy_lines.len() <= identity_lines.len() {
            proxy_lines.len()
        } else {
            identity_lines.len()
        },
        forall|i: int|
            0 <= i < worklist.len() ==> describes(
                #[trigger] worklist[i],
                proxy_lines[i]@,
                identity_lines[i]@,
                invite_code@,
            ),
{
    let count = if proxy_lines.len() <= identity_lines.len() {
        proxy_lines.len()
    } else {
        identity_lines.len()
    };
    let mut worklist: Vec<Result<WorkItem, TaskError>> = Vec::new();
    let mut i: usize = 0;
    while i < count
        invariant
            i <= count,
            count <= proxy_lines.len(),
            count <= identity_lines.len(),
            worklist.len() == i,
            forall|k: int|
                0 <= k < i ==> describes(
                    #[trigger] worklist[k],
                    proxy_lines[k]@,
                    identity_lines[k]@,
                    invite_code@,
                ),
        decreases count - i,
    {
        let parsed = parse_pairing(
            proxy_lines[i].as_str(),
            identity_lines[i].as_str(),
            invite_code,
        );
        worklist.push(parsed);
        i = i + 1;
    }
    worklist
}

/// The character that ends a line.
pub const LINE_FEED: char = '\n';

/// The character that may stand before the line feed and is then no part
/// of the line.
pub const CARRIAGE_RETURN: char = '\r';

/// `line` without the carriage return that it may end in.
pub open spec fn without_return(line: Seq<char>) -> Seq<char> {
    if line.len() > 0 && line.last() == CARRIAGE_RETURN {
        line.drop_last()
    } else {
        line
    }
}

/// The lines of `text`. A line ends with a line feed, or with a carriage
/// return and a line feed, which are no part of it; what follows the last
/// line feed is a line too, unless it is empty.
pub open spec fn lines_of(text: Seq<char>) -> Seq<Seq<char>> {
    let pieces = split_on(text, LINE_FEED);
    let ended = Seq::new((pieces.len() - 1) as nat, |i: int| without_return(pieces[i]));
    if pieces.last().len() == 0 {
        ended
    } else {
        ended.push(pieces.last())
    }
}

/// Takes away the carriage return that `line` may end in.
pub fn strip_return(line: &str) -> (stripped: String)
    ensures
        stripped@ == without_return(line@),
{
    let length = line.unicode_len();
    if length > 0 && line.get_char(length - 1) == CARRIAGE_RETURN {
        let kept = String::from_str(line.substring_char(0, length - 1));
        assert(line@.subrange(0, length - 1) =~= line@.drop_last());
        kept
    } else {
        String::from_str(line)
    }
}

/// Splits `text` into its lines.
pub fn text_lines(text: &str) -> (lines: Vec<String>)
    ensures
        texts(lines@) == lines_of(text@),
{
    let pieces = split_fields(text, LINE_FEED);
    proof {
        lemma_split_nonempty(text@, LINE_FEED);
    }
    let ghost found = split_on(text@, LINE_FEED);
    let count = pieces.len();
    let mut lines: Vec<String> = Vec::new();
    let mut i: usize = 0;
    while i + 1 < count
        invariant
            count == pieces.len(),
            count >= 1,
            i + 1 <= count,
            found == texts(pieces@),
            texts(lines@) =~= Seq::new(i as nat, |k: int| without_return(found[k])),
        decreases count - i,
    {
        let line = strip_return(pieces[i].as_str());
        proof {
            assert(found[i as int] == pieces@[i as int]@);
            assert(texts(lines@.push(line)) =~= texts(lines@).push(line@));
        }
        lines.push(line);
        i = i + 1;
    }
    let last = &pieces[count - 1];
    proof {
        assert(found.last() == pieces@[count - 1]@);
    }
    if last.as_str().unicode_len() > 0 {
        let line = last.clone();
        proof {
            assert(texts(lines@.push(line)) =~= texts(lines@).push(line@));
        }
        lines.push(line);
    }
    lines
}

/// Reads the worklist from the text of the proxy records, the text of the
/// identity records and the shared referral code: the records are paired
/// line by line.
pub fn read_worklist(proxy_text: &str, identity_text: &str, invite_code: &str) -> (worklist: Vec<
    Result<WorkItem, TaskError>,
>)
    ensures
        worklist.len() == if lines_of(proxy_text@).len() <= lines_of(identity_text@).len() {
            lines_of(proxy_text@).len()
        } else {
            lines_of(identity_text@).len()
        },
        forall|i: int|
            0 <= i < worklist.len() ==> describes(
                #[trigger] worklist[i],
                lines_of(proxy_text@)[i],
                lines_of(identity_text@)[i],
                invite_code@,
            ),
{
    let proxy_lines = text_lines(proxy_text);
    let identity_lines = text_lines(identity_text);
    let worklist = pair_records(&proxy_lines, &identity_lines, invite_code);
    proof {
        assert forall|i: int| 0 <= i < worklist.len() implies describes(
            #[trigger] worklist[i],
            lines_of(proxy_text@)[i],
            lines_of(identity_text@)[i],
            invite_code@,
        ) by {
            assert(texts(proxy_lines@)[i] == proxy_lines@[i]@);
            assert(texts(identity_lines@)[i] == identity_lines@[i]@);
        }
    }
    worklist
}

/// `fields` with `separator` between them.
pub open spec fn joined(fields: Seq<Seq<char>>, separator: char) -> Seq<char>
    decreases fields.len(),
{
    if fields.len() == 0 {
        Seq::empty()
    } else if fields.len() == 1 {
        fields[0]
    } else {
        joined(fields.drop_last(), separator).push(separator) + fields.last()
    }
}

/// Splitting loses nothing and leaves no separator behind: the fields,
/// joined again, are the text, and the separator occurs in none of them.
pub proof fn split_then_join(text: Seq<char>, separator: char)
    ensures
        joined(split_on(text, separator), separator) == text,
        forall|i: int, j: int|
            0 <= i < split_on(text, separator).len() && 0 <= j < split_on(text, separator)[i].len()
                ==> #[trigger] split_on(text, separator)[i][j] != separator,
    decreases text.len(),
{
    let fields = split_on(text, separator);
    if text.len() == 0 {
        assert(joined(fields, separator) =~= text);
    } else {
        let front = text.drop_last();
        let before = split_on(front, separator);
        split_then_join(front, separator);
        lemma_split_nonempty(front, separator);
        if text.last() == separator {
            assert(fields.drop_last() =~= before);
            assert(joined(before, separator).push(separator) + Seq::<char>::empty() =~= text);
        } else {
            let grown = before.last().push(text.last());
            if before.len() == 1 {
                assert(before[0] == front);
                assert(fields[0] =~= text);
            } else {
                assert(fields.drop_last() =~= before.drop_last());
                assert(joined(before.drop_last(), separator).push(separator) + grown
                    =~= (joined(before.drop_last(), separator).push(separator)
                    + before.last()).push(text.last()));
                assert(front.push(text.last()) =~= text);
            }
            assert forall|i: int, j: int|
                0 <= i < fields.len() && 0 <= j < fields[i].len() implies #[trigger] fields[i][j]
                != separator by {
                if i < before.len() - 1 {
                    assert(fields[i] == before[i]);
                    assert(before[i][j] != separator);
                } else if j < before.last().len() {
                    assert(before[before.len() - 1][j] != separator);
                }
            }
        }
    }
}

} // verus!

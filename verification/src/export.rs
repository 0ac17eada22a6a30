//! Rendering the aggregated history for export.
//!
//! Each chat becomes one file per chosen format: plain text, CSV, or JSON.
//! Everything here builds strings; writing them under the output directory
//! happens outside the library. Media artifacts are rendered by name
//! (`id.extension`); their bytes live in the files the fetcher persisted.

use vstd::prelude::*;
use crate::model::AllChats;
use crate::model::Chat;
use crate::model::Content;
use crate::model::Message;
use crate::saved::SavedPost;
use crate::timefmt::MAX_FORMAT_SECS;
use crate::timefmt::format_rfc3339_utc;
use crate::timefmt::rfc3339_of;

verus! {

/// The formats the exporters write.
pub enum ExportFormat {
    TXT,
    JSON,
    CSV,
}

/// One file to write: where, and what.
pub struct ExportFile {
    /// The path under the output directory.
    pub path: String,
    /// The file's contents.
    pub contents: String,
}

/// The text of a payload as exporters render it: a text body as it stands;
/// a media artifact by name, `id.extension`.
pub open spec fn spec_content_text(c: Content) -> Seq<char> {
    match c {
        Content::Text(s) => s@,
        Content::Media(img) => img.id@ + "."@ + img.extension@,
    }
}

/// One plain-text line: `[timestamp] author: text`.
pub open spec fn spec_txt_line(m: Message) -> Seq<char> {
    "["@ + rfc3339_of(m.timestamp) + "] "@ + m.author@ + ": "@ + spec_content_text(m.content)
        + "\n"@
}

/// The plain-text rendering of the messages from `i` on.
pub open spec fn spec_render_txt(msgs: Seq<Message>, i: int) -> Seq<char>
    decreases msgs.len() - i when 0 <= i <= msgs.len()
{
    if i >= msgs.len() {
        Seq::<char>::empty()
    } else {
        spec_txt_line(msgs[i]) + spec_render_txt(msgs, i + 1)
    }
}

/// The CSV header line.
pub const CSV_HEADER: &'static str = "timestamp, author, message \n";

/// One CSV line: `timestamp, author, text,`.
pub open spec fn spec_csv_line(m: Message) -> Seq<char> {
    rfc3339_of(m.timestamp) + ", "@ + m.author@ + ", "@ + spec_content_text(m.content) + ",\n"@
}

/// The CSV rendering of the messages from `i` on.
pub open spec fn spec_render_csv(msgs: Seq<Message>, i: int) -> Seq<char>
    decreases msgs.len() - i when 0 <= i <= msgs.len()
{
    if i >= msgs.len() {
        Seq::<char>::empty()
    } else {
        spec_csv_line(msgs[i]) + spec_render_csv(msgs, i + 1)
    }
}

/// The hexadecimal digit for `n`.
pub open spec fn spec_hex(n: int) -> char {
    if n == 0 {
        '0'
    } else if n == 1 {
        '1'
    } else if n == 2 {
        '2'
    } else if n == 3 {
        '3'
    } else if n == 4 {
        '4'
    } else if n == 5 {
        '5'
    } else if n == 6 {
        '6'
    } else if n == 7 {
        '7'
    } else if n == 8 {
        '8'
    } else if n == 9 {
        '9'
    } else if n == 10 {
        'a'
    } else if n == 11 {
        'b'
    } else if n == 12 {
        'c'
    } else if n == 13 {
        'd'
    } else if n == 14 {
        'e'
    } else {
        'f'
    }
}

/// How one character stands inside a JSON string: quote, backslash and the
/// common control characters take their two-character escapes, any other
/// control character its `\u00..` escape, and everything else stands as it
/// is.
pub open spec fn spec_json_escape_char(c: char) -> Seq<char> {
    if c == '"' {
        seq!['\\', '"']
    } else if c == '\\' {
        seq!['\\', '\\']
    } else if c == '\n' {
        seq!['\\', 'n']
    } else if c == '\r' {
        seq!['\\', 'r']
    } else if c == '\t' {
        seq!['\\', 't']
    } else if (c as int) < 32 {
        seq!['\\', 'u', '0', '0', spec_hex(c as int / 16), spec_hex(c as int % 16)]
    } else {
        seq![c]
    }
}

/// The JSON escaping of the characters of `s` from `i` on.
pub open spec fn spec_json_escape(s: Seq<char>, i: int) -> Seq<char>
    decreases s.len() - i when 0 <= i <= s.len()
{
    if i >= s.len() {
        Seq::<char>::empty()
    } else {
        spec_json_escape_char(s[i]) + spec_json_escape(s, i + 1)
    }
}

/// A JSON string: the escaped text between quotes.
pub open spec fn spec_json_string(s: Seq<char>) -> Seq<char> {
    "\""@ + spec_json_escape(s, 0) + "\""@
}

/// A payload as JSON: a tagged object.
pub open spec fn spec_json_content(c: Content) -> Seq<char> {
    match c {
        Content::Text(s) => "{\"Text\":"@ + spec_json_string(s@) + "}"@,
        Content::Media(img) => "{\"Media\":{\"id\":"@ + spec_json_string(img.id@)
            + ",\"extension\":"@ + spec_json_string(img.extension@) + "}}"@,
    }
}

/// One message as a JSON object.
pub open spec fn spec_json_message(m: Message) -> Seq<char> {
    "{\"author\":"@ + spec_json_string(m.author@) + ",\"timestamp\":"@ + spec_json_string(
        rfc3339_of(m.timestamp),
    ) + ",\"content\":"@ + spec_json_content(m.content) + "}"@
}

/// The comma-separated JSON objects of the messages from `i` on.
pub open spec fn spec_json_messages(msgs: Seq<Message>, i: int) -> Seq<char>
    decreases msgs.len() - i when 0 <= i <= msgs.len()
{
    if i >= msgs.len() {
        Seq::<char>::empty()
    } else {
        spec_json_message(msgs[i]) + (if i + 1 < msgs.len() {
            ","@ + spec_json_messages(msgs, i + 1)
        } else {
            Seq::<char>::empty()
        })
    }
}

/// A whole chat as a JSON object.
pub open spec fn spec_render_json(chat: Chat) -> Seq<char> {
    "{\"id\":"@ + spec_json_string(chat.id@) + ",\"messages\":["@ + spec_json_messages(
        chat.messages@,
        0,
    ) + "]}"@
}

/// Every timestamp of the chat fits the formatter.
pub open spec fn spec_ts_in_range(msgs: Seq<Message>) -> bool {
    forall|i: int| 0 <= i < msgs.len() ==> 0 <= (#[trigger] msgs[i]).timestamp <= MAX_FORMAT_SECS
}

/// The hexadecimal digit for `n`, as text.
fn hex_digit_str(n: u8) -> (r: &'static str)
    requires
        n < 16,
    ensures
        r@ == seq![spec_hex(n as int)],
{
    proof {
        reveal_strlit("0");
        reveal_strlit("1");
        reveal_strlit("2");
        reveal_strlit("3");
        reveal_strlit("4");
        reveal_strlit("5");
        reveal_strlit("6");
        reveal_strlit("7");
        reveal_strlit("8");
        reveal_strlit("9");
        reveal_strlit("a");
        reveal_strlit("b");
        reveal_strlit("c");
        reveal_strlit("d");
        reveal_strlit("e");
        reveal_strlit("f");
    }
    if n == 0 {
        "0"
    } else if n == 1 {
        "1"
    } else if n == 2 {
        "2"
    } else if n == 3 {
        "3"
    } else if n == 4 {
        "4"
    } else if n == 5 {
        "5"
    } else if n == 6 {
        "6"
    } else if n == 7 {
        "7"
    } else if n == 8 {
        "8"
    } else if n == 9 {
        "9"
    } else if n == 10 {
        "a"
    } else if n == 11 {
        "b"
    } else if n == 12 {
        "c"
    } else if n == 13 {
        "d"
    } else if n == 14 {
        "e"
    } else {
        "f"
    }
}

/// Escapes a text for standing inside a JSON string.
#[verifier::loop_isolation(false)]
fn escape_json(s: &str) -> (r: String)
    ensures
        r@ == spec_json_escape(s@, 0),
{
    let n = s.unicode_len();
    let mut acc = String::new();
    let mut i: usize = 0;
    while i < n
        invariant
            i <= n,
            n == s@.len(),
            spec_json_escape(s@, 0) == acc@ + spec_json_escape(s@, i as int),
        decreases n - i,
    {
        let ghost acc0 = acc@;
        let c = s.get_char(i);
        if c == '"' {
            acc.append("\\\"");
            proof {
                reveal_strlit("\\\"");
                assert(acc@ =~= acc0 + spec_json_escape_char(c));
            }
        } else if c == '\\' {
            acc.append("\\\\");
            proof {
                reveal_strlit("\\\\");
                assert(acc@ =~= acc0 + spec_json_escape_char(c));
            }
        } else if c == '\n' {
            acc.append("\\n");
            proof {
                reveal_strlit("\\n");
                assert(acc@ =~= acc0 + spec_json_escape_char(c));
            }
        } else if c == '\r' {
            acc.append("\\r");
            proof {
                reveal_strlit("\\r");
                assert(acc@ =~= acc0 + spec_json_escape_char(c));
            }
        } else if c == '\t' {
            acc.append("\\t");
            proof {
                reveal_strlit("\\t");
                assert(acc@ =~= acc0 + spec_json_escape_char(c));
            }
        } else if (c as u32) < 32 {
            let code = (c as u32) as u8;
            acc.append("\\u00");
            acc.append(hex_digit_str(code / 16));
            acc.append(hex_digit_str(code % 16));
            proof {
                reveal_strlit("\\u00");
                assert(acc@ =~= acc0 + spec_json_escape_char(c));
            }
        } else {
            acc.append(s.substring_char(i, i + 1));
            proof {
                assert(s@.subrange(i as int, i + 1) =~= seq![s@[i as int]]);
                assert(acc@ =~= acc0 + spec_json_escape_char(c));
            }
        }
        proof {
            assert(spec_json_escape(s@, i as int) == spec_json_escape_char(s@[i as int])
                + spec_json_escape(s@, i + 1));
            assert(acc0 + (spec_json_escape_char(c) + spec_json_escape(s@, i + 1)) =~= (acc0
                + spec_json_escape_char(c)) + spec_json_escape(s@, i + 1));
        }
        i = i + 1;
    }
    acc
}

/// Appends a text as a JSON string, quoted and escaped.
fn append_json_string(acc: &mut String, s: &str)
    ensures
        final(acc)@ == old(acc)@ + spec_json_string(s@),
{
    let ghost acc0 = acc@;
    acc.append("\"");
    let esc = escape_json(s);
    acc.append(esc.as_str());
    acc.append("\"");
    proof {
        assert(final(acc)@ =~= acc0 + spec_json_string(s@));
    }
}

/// Appends the rendered text of a payload.
fn append_content_text(acc: &mut String, c: &Content)
    ensures
        final(acc)@ == old(acc)@ + spec_content_text(*c),
{
    let ghost acc0 = acc@;
    match c {
        Content::Text(s) => {
            acc.append(s.as_str());
        },
        Content::Media(img) => {
            acc.append(img.id.as_str());
            acc.append(".");
            acc.append(img.extension.as_str());
        },
    }
    proof {
        assert(final(acc)@ =~= acc0 + spec_content_text(*c));
    }
}

/// Renders a chat as plain text, one line per message, in the chat's order.
#[verifier::loop_isolation(false)]
pub fn render_chat_txt(chat: &Chat) -> (r: String)
    requires
        spec_ts_in_range(chat.messages@),
    ensures
        r@ == spec_render_txt(chat.messages@, 0),
{
    let mut acc = String::new();
    let mut i: usize = 0;
    let n = chat.messages.len();
    while i < n
        invariant
            i <= n,
            n == chat.messages@.len(),
            spec_render_txt(chat.messages@, 0) == acc@ + spec_render_txt(
                chat.messages@,
                i as int,
            ),
        decreases n - i,
    {
        let ghost acc0 = acc@;
        let m = &chat.messages[i];
        acc.append("[");
        let ts = format_rfc3339_utc(m.timestamp);
        acc.append(ts.as_str());
        acc.append("] ");
        acc.append(m.author.as_str());
        acc.append(": ");
        append_content_text(&mut acc, &m.content);
        acc.append("\n");
        proof {
            assert(acc@ =~= acc0 + spec_txt_line(chat.messages@[i as int]));
            assert(acc0 + (spec_txt_line(chat.messages@[i as int]) + spec_render_txt(
                chat.messages@,
                i + 1,
            )) =~= (acc0 + spec_txt_line(chat.messages@[i as int])) + spec_render_txt(
                chat.messages@,
                i + 1,
            ));
        }
        i = i + 1;
    }
    acc
}

/// Renders a chat as CSV: the header line, then one line per message, in
/// the chat's order.
#[verifier::loop_isolation(false)]
pub fn render_chat_csv(chat: &Chat) -> (r: String)
    requires
        spec_ts_in_range(chat.messages@),
    ensures
        r@ == CSV_HEADER@ + spec_render_csv(chat.messages@, 0),
{
    let mut acc = String::from_str(CSV_HEADER);
    let mut i: usize = 0;
    let n = chat.messages.len();
    while i < n
        invariant
            i <= n,
            n == chat.messages@.len(),
            CSV_HEADER@ + spec_render_csv(chat.messages@, 0) == acc@ + spec_render_csv(
                chat.messages@,
                i as int,
            ),
        decreases n - i,
    {
        let ghost acc0 = acc@;
        let m = &chat.messages[i];
        let ts = format_rfc3339_utc(m.timestamp);
        acc.append(ts.as_str());
        acc.append(", ");
        acc.append(m.author.as_str());
        acc.append(", ");
        append_content_text(&mut acc, &m.content);
        acc.append(",\n");
        proof {
            assert(acc@ =~= acc0 + spec_csv_line(chat.messages@[i as int]));
            assert(acc0 + (spec_csv_line(chat.messages@[i as int]) + spec_render_csv(
                chat.messages@,
                i + 1,
            )) =~= (acc0 + spec_csv_line(chat.messages@[i as int])) + spec_render_csv(
                chat.messages@,
                i + 1,
            ));
        }
        i = i + 1;
    }
    acc
}

/// Renders a chat as one JSON object holding the room id and the messages,
/// in the chat's order.
#[verifier::rlimit(60)]
#[verifier::loop_isolation(false)]
pub fn render_chat_json(chat: &Chat) -> (r: String)
    requires
        spec_ts_in_range(chat.messages@),
    ensures
        r@ == spec_render_json(*chat),
{
    let mut acc = String::from_str("{\"id\":");
    append_json_string(&mut acc, chat.id.as_str());
    acc.append(",\"messages\":[");
    let ghost head = acc@;
    let mut i: usize = 0;
    let n = chat.messages.len();
    while i < n
        invariant
            i <= n,
            n == chat.messages@.len(),
            head + spec_json_messages(chat.messages@, 0) == acc@ + spec_json_messages(
                chat.messages@,
                i as int,
            ),
        decreases n - i,
    {
        let ghost acc0 = acc@;
        let m = &chat.messages[i];
        acc.append("{\"author\":");
        append_json_string(&mut acc, m.author.as_str());
        acc.append(",\"timestamp\":");
        let ts = format_rfc3339_utc(m.timestamp);
        append_json_string(&mut acc, ts.as_str());
        acc.append(",\"content\":");
        match &m.content {
            Content::Text(s) => {
                acc.append("{\"Text\":");
                append_json_string(&mut acc, s.as_str());
                acc.append("}");
            },
            Content::Media(img) => {
                acc.append("{\"Media\":{\"id\":");
                append_json_string(&mut acc, img.id.as_str());
                acc.append(",\"extension\":");
                append_json_string(&mut acc, img.extension.as_str());
                acc.append("}}");
            },
        }
        acc.append("}");
        proof {
            assert(acc@ =~= acc0 + spec_json_message(chat.messages@[i as int]));
        }
        if i + 1 < n {
            acc.append(",");
        }
        proof {
            if i + 1 < n {
                assert(acc@ =~= (acc0 + spec_json_message(chat.messages@[i as int])) + ","@);
                assert(acc0 + (spec_json_message(chat.messages@[i as int]) + (","@
                    + spec_json_messages(chat.messages@, i + 1))) =~= ((acc0 + spec_json_message(
                    chat.messages@[i as int],
                )) + ","@) + spec_json_messages(chat.messages@, i + 1));
            } else {
                assert(spec_json_messages(chat.messages@, i as int) =~= spec_json_message(
                    chat.messages@[i as int],
                ));
            }
        }
        i = i + 1;
    }
    acc.append("]}");
    proof {
        assert(spec_json_messages(chat.messages@, n as int) =~= Seq::<char>::empty());
        assert(acc@ =~= spec_render_json(*chat));
    }
    acc
}

/// The path a chat's file is written under: `messages/`, the room id's
/// characters one through nine, and the format's extension.
pub open spec fn spec_export_path(format: ExportFormat, id: Seq<char>) -> Seq<char> {
    "messages/"@ + id.subrange(1, 10) + (match format {
        ExportFormat::TXT => ".txt"@,
        ExportFormat::JSON => ".json"@,
        ExportFormat::CSV => ".csv"@,
    })
}

/// What a chat's file holds in each format.
pub open spec fn spec_render(format: ExportFormat, chat: Chat) -> Seq<char> {
    match format {
        ExportFormat::TXT => spec_render_txt(chat.messages@, 0),
        ExportFormat::JSON => spec_render_json(chat),
        ExportFormat::CSV => CSV_HEADER@ + spec_render_csv(chat.messages@, 0),
    }
}

/// A chat the exporters accept: the room id is long enough to name the
/// file, and every timestamp fits the formatter.
pub open spec fn spec_exportable(chat: Chat) -> bool {
    chat.id@.len() >= 10 && spec_ts_in_range(chat.messages@)
}

/// Renders every chat in the chosen format: one file per chat, in chat
/// order, each named after its room id.
#[verifier::loop_isolation(false)]
pub fn export(format: ExportFormat, chats: AllChats) -> (r: Vec<ExportFile>)
    requires
        forall|i: int|
            0 <= i < chats.chats@.len() ==> spec_exportable(#[trigger] chats.chats@[i]),
    ensures
        r@.len() == chats.chats@.len(),
        forall|i: int|
            0 <= i < chats.chats@.len() ==> {
                &&& (#[trigger] r@[i]).path@ == spec_export_path(format, chats.chats@[i].id@)
                &&& r@[i].contents@ == spec_render(format, chats.chats@[i])
            },
{
    let mut r: Vec<ExportFile> = Vec::new();
    let mut i: usize = 0;
    let n = chats.chats.len();
    while i < n
        invariant
            i <= n,
            n == chats.chats@.len(),
            r@.len() == i,
            forall|j: int|
                0 <= j < i ==> {
                    &&& (#[trigger] r@[j]).path@ == spec_export_path(format, chats.chats@[j].id@)
                    &&& r@[j].contents@ == spec_render(format, chats.chats@[j])
                },
        decreases n - i,
    {
        let chat = &chats.chats[i];
        let mut path = String::from_str("messages/");
        let stem = chat.id.as_str().substring_char(1, 10);
        path.append(stem);
        let contents = match format {
            ExportFormat::TXT => {
                path.append(".txt");
                render_chat_txt(chat)
            },
            ExportFormat::JSON => {
                path.append(".json");
                render_chat_json(chat)
            },
            ExportFormat::CSV => {
                path.append(".csv");
                render_chat_csv(chat)
            },
        };
        proof {
            assert(path@ =~= spec_export_path(format, chats.chats@[i as int].id@));
        }
        r.push(ExportFile { path, contents });
        i = i + 1;
    }
    r
}

/// The image-URL list as the flat-file exporters show it, from `i` on: each
/// URL quoted and escaped, the URLs comma-separated.
pub open spec fn spec_shown_urls(urls: Seq<String>, i: int) -> Seq<char>
    decreases urls.len() - i when 0 <= i <= urls.len()
{
    if i >= urls.len() {
        Seq::<char>::empty()
    } else {
        spec_json_string(urls[i]@) + (if i + 1 < urls.len() {
            ", "@ + spec_shown_urls(urls, i + 1)
        } else {
            Seq::<char>::empty()
        })
    }
}

/// The bracketed image-URL list of a post.
pub open spec fn spec_shown_url_list(urls: Seq<String>) -> Seq<char> {
    "["@ + spec_shown_urls(urls, 0) + "]"@
}

/// The image URLs as a JSON array, from `i` on.
pub open spec fn spec_json_urls(urls: Seq<String>, i: int) -> Seq<char>
    decreases urls.len() - i when 0 <= i <= urls.len()
{
    if i >= urls.len() {
        Seq::<char>::empty()
    } else {
        spec_json_string(urls[i]@) + (if i + 1 < urls.len() {
            ","@ + spec_json_urls(urls, i + 1)
        } else {
            Seq::<char>::empty()
        })
    }
}

/// The JSON array of a post's image URLs.
pub open spec fn spec_json_url_array(urls: Seq<String>) -> Seq<char> {
    "["@ + spec_json_urls(urls, 0) + "]"@
}

/// Appends the shown image-URL list.
#[verifier::loop_isolation(false)]
fn append_shown_urls(acc: &mut String, urls: &Vec<String>)
    ensures
        final(acc)@ == old(acc)@ + spec_shown_url_list(urls@),
{
    acc.append("[");
    let ghost head = acc@;
    let mut i: usize = 0;
    let n = urls.len();
    while i < n
        invariant
            i <= n,
            n == urls@.len(),
            head + spec_shown_urls(urls@, 0) == acc@ + spec_shown_urls(urls@, i as int),
        decreases n - i,
    {
        let ghost acc0 = acc@;
        append_json_string(acc, urls[i].as_str());
        if i + 1 < n {
            acc.append(", ");
        }
        proof {
            if i + 1 < n {
                assert(acc@ =~= (acc0 + spec_json_string(urls@[i as int]@)) + ", "@);
                assert(acc0 + (spec_json_string(urls@[i as int]@) + (", "@ + spec_shown_urls(
                    urls@,
                    i + 1,
                ))) =~= ((acc0 + spec_json_string(urls@[i as int]@)) + ", "@) + spec_shown_urls(
                    urls@,
                    i + 1,
                ));
            } else {
                assert(spec_shown_urls(urls@, i as int) =~= spec_json_string(urls@[i as int]@));
            }
        }
        i = i + 1;
    }
    acc.append("]");
    proof {
        assert(spec_shown_urls(urls@, n as int) =~= Seq::<char>::empty());
        assert(acc@ =~= old(acc)@ + spec_shown_url_list(urls@));
    }
}

/// Appends the JSON array of image URLs.
#[verifier::loop_isolation(false)]
fn append_json_urls(acc: &mut String, urls: &Vec<String>)
    ensures
        final(acc)@ == old(acc)@ + spec_json_url_array(urls@),
{
    acc.append("[");
    let ghost head = acc@;
    let mut i: usize = 0;
    let n = urls.len();
    while i < n
        invariant
            i <= n,
            n == urls@.len(),
            head + spec_json_urls(urls@, 0) == acc@ + spec_json_urls(urls@, i as int),
        decreases n - i,
    {
        let ghost acc0 = acc@;
        append_json_string(acc, urls[i].as_str());
        if i + 1 < n {
            acc.append(",");
        }
        proof {
            if i + 1 < n {
                assert(acc@ =~= (acc0 + spec_json_string(urls@[i as int]@)) + ","@);
                assert(acc0 + (spec_json_string(urls@[i as int]@) + (","@ + spec_json_urls(
                    urls@,
                    i + 1,
                ))) =~= ((acc0 + spec_json_string(urls@[i as int]@)) + ","@) + spec_json_urls(
                    urls@,
                    i + 1,
                ));
            } else {
                assert(spec_json_urls(urls@, i as int) =~= spec_json_string(urls@[i as int]@));
            }
        }
        i = i + 1;
    }
    acc.append("]");
    proof {
        assert(spec_json_urls(urls@, n as int) =~= Seq::<char>::empty());
        assert(acc@ =~= old(acc)@ + spec_json_url_array(urls@));
    }
}

/// One saved post as a plain-text line.
pub open spec fn spec_saved_txt_line(p: SavedPost) -> Seq<char> {
    "Title: "@ + p.title@ + ", Subreddit: "@ + p.subreddit_name@ + ", Body: "@ + p.body_text@
        + " Permalink: "@ + p.permalink@ + ", Images "@ + spec_shown_url_list(p.img_url@) + "\n"@
}

/// The plain-text rendering of the posts from `i` on.
pub open spec fn spec_render_saved_txt(posts: Seq<SavedPost>, i: int) -> Seq<char>
    decreases posts.len() - i when 0 <= i <= posts.len()
{
    if i >= posts.len() {
        Seq::<char>::empty()
    } else {
        spec_saved_txt_line(posts[i]) + spec_render_saved_txt(posts, i + 1)
    }
}

/// The CSV header of the saved-posts file.
pub const SAVED_CSV_HEADER: &'static str = "Title, Subreddit, Body, Permalink, Images\n";

/// One saved post as a CSV line.
pub open spec fn spec_saved_csv_line(p: SavedPost) -> Seq<char> {
    p.title@ + ", "@ + p.subreddit_name@ + ", "@ + p.body_text@ + ", "@ + p.permalink@ + ", "@
        + spec_shown_url_list(p.img_url@) + "\n"@
}

/// The CSV rendering of the posts from `i` on.
pub open spec fn spec_render_saved_csv(posts: Seq<SavedPost>, i: int) -> Seq<char>
    decreases posts.len() - i when 0 <= i <= posts.len()
{
    if i >= posts.len() {
        Seq::<char>::empty()
    } else {
        spec_saved_csv_line(posts[i]) + spec_render_saved_csv(posts, i + 1)
    }
}

/// One saved post as a JSON object.
pub open spec fn spec_saved_json_post(p: SavedPost) -> Seq<char> {
    "{\"title\":"@ + spec_json_string(p.title@) + ",\"subreddit_name\":"@ + spec_json_string(
        p.subreddit_name@,
    ) + ",\"permalink\":"@ + spec_json_string(p.permalink@) + ",\"img_url\":"@
        + spec_json_url_array(p.img_url@) + ",\"body_text\":"@ + spec_json_string(p.body_text@)
        + "}"@
}

/// The comma-separated JSON objects of the posts from `i` on.
pub open spec fn spec_saved_json_posts(posts: Seq<SavedPost>, i: int) -> Seq<char>
    decreases posts.len() - i when 0 <= i <= posts.len()
{
    if i >= posts.len() {
        Seq::<char>::empty()
    } else {
        spec_saved_json_post(posts[i]) + (if i + 1 < posts.len() {
            ","@ + spec_saved_json_posts(posts, i + 1)
        } else {
            Seq::<char>::empty()
        })
    }
}

/// The saved posts as one JSON array.
pub open spec fn spec_render_saved_json(posts: Seq<SavedPost>) -> Seq<char> {
    "["@ + spec_saved_json_posts(posts, 0) + "]"@
}

/// What the saved-posts file holds in each format.
pub open spec fn spec_render_saved(format: ExportFormat, posts: Seq<SavedPost>) -> Seq<char> {
    match format {
        ExportFormat::TXT => spec_render_saved_txt(posts, 0),
        ExportFormat::JSON => spec_render_saved_json(posts),
        ExportFormat::CSV => SAVED_CSV_HEADER@ + spec_render_saved_csv(posts, 0),
    }
}

/// The path the saved-posts file is written under.
pub open spec fn spec_saved_path(format: ExportFormat) -> Seq<char> {
    "saved_posts/saved_posts"@ + (match format {
        ExportFormat::TXT => ".txt"@,
        ExportFormat::JSON => ".json"@,
        ExportFormat::CSV => ".csv"@,
    })
}

/// Renders every saved post in the chosen format, in listing order, as the
/// one saved-posts file.
#[verifier::rlimit(60)]
#[verifier::loop_isolation(false)]
pub fn export_saved(format: ExportFormat, posts: &Vec<SavedPost>) -> (r: ExportFile)
    ensures
        r.path@ == spec_saved_path(format),
        r.contents@ == spec_render_saved(format, posts@),
{
    let mut path = String::from_str("saved_posts/saved_posts");
    let mut acc: String;
    let n = posts.len();
    match format {
        ExportFormat::TXT => {
            path.append(".txt");
            acc = String::new();
            let mut i: usize = 0;
            while i < n
                invariant
                    i <= n,
                    n == posts@.len(),
                    spec_render_saved_txt(posts@, 0) == acc@ + spec_render_saved_txt(
                        posts@,
                        i as int,
                    ),
                decreases n - i,
            {
                let ghost acc0 = acc@;
                let p = &posts[i];
                acc.append("Title: ");
                acc.append(p.title.as_str());
                acc.append(", Subreddit: ");
                acc.append(p.subreddit_name.as_str());
                acc.append(", Body: ");
                acc.append(p.body_text.as_str());
                acc.append(" Permalink: ");
                acc.append(p.permalink.as_str());
                acc.append(", Images ");
                append_shown_urls(&mut acc, &p.img_url);
                acc.append("\n");
                proof {
                    assert(acc@ =~= acc0 + spec_saved_txt_line(posts@[i as int]));
                    assert(acc0 + (spec_saved_txt_line(posts@[i as int]) + spec_render_saved_txt(
                        posts@,
                        i + 1,
                    )) =~= (acc0 + spec_saved_txt_line(posts@[i as int])) + spec_render_saved_txt(
                        posts@,
                        i + 1,
                    ));
                }
                i = i + 1;
            }
        },
        ExportFormat::CSV => {
            path.append(".csv");
            acc = String::from_str(SAVED_CSV_HEADER);
            let mut i: usize = 0;
            while i < n
                invariant
                    i <= n,
                    n == posts@.len(),
                    SAVED_CSV_HEADER@ + spec_render_saved_csv(posts@, 0) == acc@
                        + spec_render_saved_csv(posts@, i as int),
                decreases n - i,
            {
                let ghost acc0 = acc@;
                let p = &posts[i];
                acc.append(p.title.as_str());
                acc.append(", ");
                acc.append(p.subreddit_name.as_str());
                acc.append(", ");
                acc.append(p.body_text.as_str());
                acc.append(", ");
                acc.append(p.permalink.as_str());
                acc.append(", ");
                append_shown_urls(&mut acc, &p.img_url);
                acc.append("\n");
                proof {
                    assert(acc@ =~= acc0 + spec_saved_csv_line(posts@[i as int]));
                    assert(acc0 + (spec_saved_csv_line(posts@[i as int]) + spec_render_saved_csv(
                        posts@,
                        i + 1,
                    )) =~= (acc0 + spec_saved_csv_line(posts@[i as int])) + spec_render_saved_csv(
                        posts@,
                        i + 1,
                    ));
                }
                i = i + 1;
            }
        },
        ExportFormat::JSON => {
            path.append(".json");
            acc = String::from_str("[");
            let ghost head = acc@;
            let mut i: usize = 0;
            while i < n
                invariant
                    i <= n,
                    n == posts@.len(),
                    head + spec_saved_json_posts(posts@, 0) == acc@ + spec_saved_json_posts(
                        posts@,
                        i as int,
                    ),
                decreases n - i,
            {
                let ghost acc0 = acc@;
                let p = &posts[i];
                acc.append("{\"title\":");
                append_json_string(&mut acc, p.title.as_str());
                acc.append(",\"subreddit_name\":");
                append_json_string(&mut acc, p.subreddit_name.as_str());
                acc.append(",\"permalink\":");
                append_json_string(&mut acc, p.permalink.as_str());
                acc.append(",\"img_url\":");
                append_json_urls(&mut acc, &p.img_url);
                acc.append(",\"body_text\":");
                append_json_string(&mut acc, p.body_text.as_str());
                acc.append("}");
                proof {
                    assert(acc@ =~= acc0 + spec_saved_json_post(posts@[i as int]));
                }
                if i + 1 < n {
                    acc.append(",");
                }
                proof {
                    if i + 1 < n {
                        assert(acc@ =~= (acc0 + spec_saved_json_post(posts@[i as int])) + ","@);
                        assert(acc0 + (spec_saved_json_post(posts@[i as int]) + (","@
                            + spec_saved_json_posts(posts@, i + 1))) =~= ((acc0
                            + spec_saved_json_post(posts@[i as int])) + ","@)
                            + spec_saved_json_posts(posts@, i + 1));
                    } else {
                        assert(spec_saved_json_posts(posts@, i as int) =~= spec_saved_json_post(
                            posts@[i as int],
                        ));
                    }
                }
                i = i + 1;
            }
            acc.append("]");
            proof {
                assert(spec_saved_json_posts(posts@, n as int) =~= Seq::<char>::empty());
                assert(acc@ =~= spec_render_saved_json(posts@));
            }
        },
    }
    proof {
        assert(path@ =~= spec_saved_path(format));
        assert(spec_render_saved_txt(posts@, n as int) =~= Seq::<char>::empty());
        assert(spec_render_saved_csv(posts@, n as int) =~= Seq::<char>::empty());
    }
    ExportFile { path, contents: acc }
}

} // verus!

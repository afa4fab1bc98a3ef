//! Text rendering of the message buffer: the plain-text export, the verbose
//! export that serializes every field, the decimal rendering both rely on,
//! and the small naming helpers the UI shell uses. The writing of files and
//! the save dialog stay outside; the library only produces the bytes.

use vstd::prelude::*;

use crate::data::{ChatMessage, DmChannel};

verus! {

/// The decimal digit character for `d`.
pub open spec fn digit_char(d: nat) -> char
    recommends
        d < 10,
{
    if d == 0 {
        '0'
    } else if d == 1 {
        '1'
    } else if d == 2 {
        '2'
    } else if d == 3 {
        '3'
    } else if d == 4 {
        '4'
    } else if d == 5 {
        '5'
    } else if d == 6 {
        '6'
    } else if d == 7 {
        '7'
    } else if d == 8 {
        '8'
    } else {
        '9'
    }
}

/// The usual decimal rendering of `n`: most significant digit first, no
/// leading zeroes except for zero itself.
pub open spec fn dec_digits(n: nat) -> Seq<char>
    decreases n,
{
    if n < 10 {
        seq![digit_char(n)]
    } else {
        dec_digits(n / 10).push(digit_char(n % 10))
    }
}

/// One decimal digit as text.
fn digit_string(d: u64) -> (r: String)
    requires
        d < 10,
    ensures
        r@ == seq![digit_char(d as nat)],
{
    let s: &str = if d == 0 {
        "0"
    } else if d == 1 {
        "1"
    } else if d == 2 {
        "2"
    } else if d == 3 {
        "3"
    } else if d == 4 {
        "4"
    } else if d == 5 {
        "5"
    } else if d == 6 {
        "6"
    } else if d == 7 {
        "7"
    } else if d == 8 {
        "8"
    } else {
        "9"
    };
    proof {
        reveal_strlit("0");
        reveal_strlit("1");
        reveal_strlit("2");
        reveal_strlit("3");
        reveal_strlit("4");
        reveal_strlit("5");
        reveal_strlit("6");
        reveal_strlit("7");
        reveal_strlit("8");
        reveal_strlit("9");
        assert(s@ =~= seq![digit_char(d as nat)]);
    }
    s.to_owned()
}

/// Renders `n` in decimal.
pub fn u64_to_dec(n: u64) -> (r: String)
    ensures
        r@ == dec_digits(n as nat),
    decreases n,
{
    if n < 10 {
        digit_string(n)
    } else {
        let mut s = u64_to_dec(n / 10);
        let d = digit_string(n % 10);
        s.append(d.as_str());
        proof {
            assert(s@ =~= dec_digits((n as nat) / 10).push(digit_char((n as nat) % 10)));
        }
        s
    }
}

/// The separator line of the plain-text export.
pub open spec fn sep_line() -> Seq<char> {
    "-------------------------"@
}

/// One record of the plain-text export: the message framed by separator
/// lines, rendered as `author: content (timestamp)`.
pub open spec fn plain_record(m: ChatMessage) -> Seq<char> {
    sep_line() + "\n"@ + m.author_name@ + ": "@ + m.content@ + " ("@ + m.timestamp@ + ")"@
        + "\n"@ + sep_line() + "\n"@
}

/// The whole plain-text export: every message's record, in buffer order.
pub open spec fn plain_export(ms: Seq<ChatMessage>) -> Seq<char>
    decreases ms.len(),
{
    if ms.len() == 0 {
        Seq::empty()
    } else {
        plain_record(ms[0]) + plain_export(ms.drop_first())
    }
}

/// Exporting one more message appends exactly its record.
proof fn lemma_plain_export_snoc(ms: Seq<ChatMessage>, m: ChatMessage)
    ensures
        plain_export(ms.push(m)) == plain_export(ms) + plain_record(m),
    decreases ms.len(),
{
    let t = ms.push(m);
    if ms.len() == 0 {
        assert(t[0] == m);
        assert(t.drop_first() =~= Seq::<ChatMessage>::empty());
        assert(plain_export(t) == plain_record(t[0]) + plain_export(t.drop_first()));
        assert(plain_export(t.drop_first()) == Seq::<char>::empty());
        assert(plain_export(ms) == Seq::<char>::empty());
        assert(plain_export(t) =~= plain_export(ms) + plain_record(m));
    } else {
        assert(t[0] == ms[0]);
        assert(t.drop_first() =~= ms.drop_first().push(m));
        lemma_plain_export_snoc(ms.drop_first(), m);
        assert(plain_export(t) == plain_record(t[0]) + plain_export(t.drop_first()));
        assert(plain_export(ms) == plain_record(ms[0]) + plain_export(ms.drop_first()));
        assert(plain_export(t) =~= plain_export(ms) + plain_record(m));
    }
}

/// Renders the buffer as the plain-text export.
pub fn render_plain_text(messages: &Vec<ChatMessage>) -> (r: String)
    ensures
        r@ == plain_export(messages@),
{
    let mut out = String::new();
    let mut i: usize = 0;
    while i < messages.len()
        invariant
            i <= messages@.len(),
            out@ == plain_export(messages@.take(i as int)),
        decreases messages@.len() - i,
    {
        let m = &messages[i];
        out.append("-------------------------");
        out.append("\n");
        out.append(m.author_name.as_str());
        out.append(": ");
        out.append(m.content.as_str());
        out.append(" (");
        out.append(m.timestamp.as_str());
        out.append(")");
        out.append("\n");
        out.append("-------------------------");
        out.append("\n");
        proof {
            assert(messages@.take(i + 1) =~= messages@.take(i as int).push(messages@[i as int]));
            lemma_plain_export_snoc(messages@.take(i as int), messages@[i as int]);
            assert(out@ =~= plain_export(messages@.take(i as int)) + plain_record(
                messages@[i as int],
            ));
        }
        i = i + 1;
    }
    proof {
        assert(messages@.take(messages@.len() as int) =~= messages@);
    }
    out
}

/// One record of the verbose export: every field of the message, one line
/// each, a blank line after.
pub open spec fn verbose_record(m: ChatMessage) -> Seq<char> {
    "id: "@ + dec_digits(m.id as nat) + "\n"@ + "author: "@ + m.author_name@ + "\n"@
        + "timestamp: "@ + m.timestamp@ + "\n"@ + "content: "@ + m.content@ + "\n"@ + "\n"@
}

/// The whole verbose export: every message's record, in buffer order.
pub open spec fn verbose_export(ms: Seq<ChatMessage>) -> Seq<char>
    decreases ms.len(),
{
    if ms.len() == 0 {
        Seq::empty()
    } else {
        verbose_record(ms[0]) + verbose_export(ms.drop_first())
    }
}

/// Exporting one more message appends exactly its record.
proof fn lemma_verbose_export_snoc(ms: Seq<ChatMessage>, m: ChatMessage)
    ensures
        verbose_export(ms.push(m)) == verbose_export(ms) + verbose_record(m),
    decreases ms.len(),
{
    let t = ms.push(m);
    if ms.len() == 0 {
        assert(t[0] == m);
        assert(t.drop_first() =~= Seq::<ChatMessage>::empty());
        assert(verbose_export(t) == verbose_record(t[0]) + verbose_export(t.drop_first()));
        assert(verbose_export(t.drop_first()) == Seq::<char>::empty());
        assert(verbose_export(ms) == Seq::<char>::empty());
        assert(verbose_export(t) =~= verbose_export(ms) + verbose_record(m));
    } else {
        assert(t[0] == ms[0]);
        assert(t.drop_first() =~= ms.drop_first().push(m));
        lemma_verbose_export_snoc(ms.drop_first(), m);
        assert(verbose_export(t) == verbose_record(t[0]) + verbose_export(t.drop_first()));
        assert(verbose_export(ms) == verbose_record(ms[0]) + verbose_export(ms.drop_first()));
        assert(verbose_export(t) =~= verbose_export(ms) + verbose_record(m));
    }
}

/// Renders the buffer as the verbose export, all fields included.
pub fn render_verbose(messages: &Vec<ChatMessage>) -> (r: String)
    ensures
        r@ == verbose_export(messages@),
{
    let mut out = String::new();
    let mut i: usize = 0;
    while i < messages.len()
        invariant
            i <= messages@.len(),
            out@ == verbose_export(messages@.take(i as int)),
        decreases messages@.len() - i,
    {
        let m = &messages[i];
        let id_text = u64_to_dec(m.id);
        out.append("id: ");
        out.append(id_text.as_str());
        out.append("\n");
        out.append("author: ");
        out.append(m.author_name.as_str());
        out.append("\n");
        out.append("timestamp: ");
        out.append(m.timestamp.as_str());
        out.append("\n");
        out.append("content: ");
        out.append(m.content.as_str());
        out.append("\n");
        out.append("\n");
        proof {
            assert(messages@.take(i + 1) =~= messages@.take(i as int).push(messages@[i as int]));
            lemma_verbose_export_snoc(messages@.take(i as int), messages@[i as int]);
            assert(out@ =~= verbose_export(messages@.take(i as int)) + verbose_record(
                messages@[i as int],
            ));
        }
        i = i + 1;
    }
    proof {
        assert(messages@.take(messages@.len() as int) =~= messages@);
    }
    out
}

/// Suggested file name for the plain-text export of a channel.
pub fn plain_export_file_name(channel_name: &str) -> (r: String)
    ensures
        r@ == channel_name@ + " Messages.txt"@,
{
    let mut out = channel_name.to_owned();
    out.append(" Messages.txt");
    out
}

/// Suggested file name for the verbose export of a channel.
pub fn verbose_export_file_name(channel_name: &str) -> (r: String)
    ensures
        r@ == channel_name@ + " Messages Verbose.txt"@,
{
    let mut out = channel_name.to_owned();
    out.append(" Messages Verbose.txt");
    out
}

/// Display name for a direct-message channel: group conversations are
/// prefixed so the user can tell them apart from one-on-one ones.
pub open spec fn dm_display_name_spec(name: Seq<char>, is_group: bool) -> Seq<char> {
    if is_group {
        "Groupchat with "@ + name
    } else {
        name
    }
}

/// Name shown in the list for a direct-message channel.
pub fn dm_display_name(dm: &DmChannel) -> (r: String)
    ensures
        r@ == dm_display_name_spec(dm.name@, dm.is_group),
{
    if dm.is_group {
        let mut out = "Groupchat with ".to_owned();
        out.append(dm.name.as_str());
        out
    } else {
        dm.name.clone()
    }
}

} // verus!

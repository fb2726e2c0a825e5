//! Character-level text handling shared by the guest bridges: reading the
//! output of guest tools, escaping text for the guest's `input` tool and
//! rendering key codes.

use vstd::prelude::*;
use vstd::utf8::{decode_utf8, valid_utf8};

verus! {

broadcast use vstd::string::group_string_axioms;

/// Trusted, not proved: `String::push` appends `ch` to the string, so its
/// characters become the old ones followed by `ch`.
pub assume_specification[ String::push ](s: &mut String, ch: char)
    ensures
        final(s)@ == old(s)@.push(ch),
;

/// The characters of `s`, in order.
pub fn chars_of(s: &str) -> (r: Vec<char>)
    ensures
        r@ == s@,
{
    let mut v: Vec<char> = Vec::new();
    for c in it: s.chars()
        invariant
            v@ == it.seq().take(it.index() as int),
    {
        v.push(c);
    }
    v
}

/// A string with the characters `cs`, in order.
pub fn string_of(cs: &Vec<char>) -> (r: String)
    ensures
        r@ == cs@,
{
    let mut s = String::new();
    for i in 0..cs.len()
        invariant
            s@ == cs@.take(i as int),
    {
        s.push(cs[i]);
        assert(cs@.take(i + 1) == cs@.take(i as int).push(cs@[i as int]));
    }
    assert(cs@.take(cs@.len() as int) == cs@);
    s
}

/// Appends the characters of `s` to `out`.
pub fn append_str(out: &mut String, s: &str)
    ensures
        final(out)@ == old(out)@ + s@,
{
    let cs = chars_of(s);
    let ghost start = out@;
    for i in 0..cs.len()
        invariant
            cs@ == s@,
            out@ == start + cs@.take(i as int),
    {
        out.push(cs[i]);
        assert(cs@.take(i + 1) == cs@.take(i as int).push(cs@[i as int]));
    }
    assert(cs@.take(cs@.len() as int) == cs@);
}

/// Unicode's White_Space characters, those for which `char::is_whitespace`
/// holds.
pub open spec fn is_white(c: char) -> bool {
    let v = c as u32;
    ||| 9 <= v <= 13
    ||| v == 32
    ||| v == 0x85
    ||| v == 0xa0
    ||| v == 0x1680
    ||| 0x2000 <= v <= 0x200a
    ||| v == 0x2028
    ||| v == 0x2029
    ||| v == 0x202f
    ||| v == 0x205f
    ||| v == 0x3000
}

/// Whether `c` is a White_Space character.
pub fn is_white_char(c: char) -> (b: bool)
    ensures
        b == is_white(c),
{
    let v = c as u32;
    (9 <= v && v <= 13) || v == 32 || v == 0x85 || v == 0xa0 || v == 0x1680 || (0x2000 <= v
        && v <= 0x200a) || v == 0x2028 || v == 0x2029 || v == 0x202f || v == 0x205f || v
        == 0x3000
}

/// The pieces of `t` between line feeds, in order; there is always one more
/// piece than there are line feeds. The standard line iterator also drops a
/// final empty piece and one `'\r'` before each line feed; neither changes
/// the whitespace-separated fields of any piece.
pub open spec fn segments(t: Seq<char>) -> Seq<Seq<char>>
    decreases t.len(),
{
    if t.len() == 0 {
        seq![Seq::<char>::empty()]
    } else {
        let prev = segments(t.drop_last());
        if t.last() == '\n' {
            prev.push(Seq::<char>::empty())
        } else {
            prev.update(prev.len() - 1, prev.last().push(t.last()))
        }
    }
}

/// The maximal runs of non-White_Space characters of `t`, in order: what
/// `str::split_whitespace` yields.
pub open spec fn fields(t: Seq<char>) -> Seq<Seq<char>>
    decreases t.len(),
{
    if t.len() == 0 {
        Seq::<Seq<char>>::empty()
    } else {
        let prev = fields(t.drop_last());
        let c = t.last();
        if is_white(c) {
            prev
        } else if t.len() >= 2 && !is_white(t[t.len() - 2]) {
            prev.update(prev.len() - 1, prev.last().push(c))
        } else {
            prev.push(seq![c])
        }
    }
}

proof fn lemma_segments_nonempty(t: Seq<char>)
    ensures
        segments(t).len() >= 1,
    decreases t.len(),
{
    if t.len() > 0 {
        lemma_segments_nonempty(t.drop_last());
    }
}

proof fn lemma_fields_open_run(t: Seq<char>)
    requires
        t.len() > 0,
        !is_white(t.last()),
    ensures
        fields(t).len() >= 1,
    decreases t.len(),
{
    if t.len() >= 2 && !is_white(t[t.len() - 2]) {
        lemma_fields_open_run(t.drop_last());
    }
}

/// The pieces of `text` between line feeds.
pub fn split_segments(text: &Vec<char>) -> (r: Vec<Vec<char>>)
    ensures
        r@.map_values(|v: Vec<char>| v@) == segments(text@),
{
    let mut done: Vec<Vec<char>> = Vec::new();
    let mut cur: Vec<char> = Vec::new();
    let n = text.len();
    for i in 0..n
        invariant
            n == text@.len(),
            segments(text@.take(i as int)) == done@.map_values(|v: Vec<char>| v@).push(cur@),
    {
        let c = text[i];
        let ghost pre = text@.take(i as int);
        assert(text@.take(i + 1).drop_last() == pre);
        assert(text@.take(i + 1).last() == c);
        let ghost dv = done@.map_values(|v: Vec<char>| v@);
        if c == '\n' {
            let mut finished: Vec<char> = Vec::new();
            std::mem::swap(&mut finished, &mut cur);
            done.push(finished);
            assert(done@.map_values(|v: Vec<char>| v@) =~= dv.push(finished@));
        } else {
            cur.push(c);
        }
        proof {
            lemma_segments_nonempty(pre);
        }
        assert(segments(text@.take(i + 1)) =~= done@.map_values(|v: Vec<char>| v@).push(cur@));
    }
    done.push(cur);
    assert(text@.take(n as int) == text@);
    assert(done@.map_values(|v: Vec<char>| v@) =~= segments(text@));
    done
}

/// The whitespace-separated fields of `line`.
pub fn split_fields(line: &Vec<char>) -> (r: Vec<Vec<char>>)
    ensures
        r@.map_values(|v: Vec<char>| v@) == fields(line@),
{
    let mut done: Vec<Vec<char>> = Vec::new();
    let mut cur: Vec<char> = Vec::new();
    let mut open = false;
    let n = line.len();
    for i in 0..n
        invariant
            n == line@.len(),
            open == (i > 0 && !is_white(line@[i - 1])),
            open ==> fields(line@.take(i as int)) == done@.map_values(|v: Vec<char>| v@).push(
                cur@,
            ),
            !open ==> fields(line@.take(i as int)) == done@.map_values(|v: Vec<char>| v@),
            !open ==> cur@.len() == 0,
    {
        let c = line[i];
        let ghost pre = line@.take(i as int);
        let ghost dv = done@.map_values(|v: Vec<char>| v@);
        assert(line@.take(i + 1).drop_last() == pre);
        assert(line@.take(i + 1).last() == c);
        if i > 0 {
            assert(line@.take(i + 1)[i - 1] == line@[i - 1]);
        }
        if is_white_char(c) {
            if open {
                let mut finished: Vec<char> = Vec::new();
                std::mem::swap(&mut finished, &mut cur);
                done.push(finished);
                assert(done@.map_values(|v: Vec<char>| v@) =~= dv.push(finished@));
            }
            open = false;
        } else {
            let ghost cur_old = cur@;
            cur.push(c);
            proof {
                let t = line@.take(i + 1);
                if open {
                    lemma_fields_open_run(pre);
                    assert(t.len() >= 2 && !is_white(t[t.len() - 2]));
                    assert(fields(pre) == dv.push(cur_old));
                    assert(fields(t) =~= dv.push(cur@));
                } else {
                    assert(!(t.len() >= 2 && !is_white(t[t.len() - 2])));
                    assert(cur@ =~= seq![c]);
                    assert(fields(t) =~= dv.push(cur@));
                }
            }
            open = true;
        }
        assert(open ==> fields(line@.take(i + 1)) =~= done@.map_values(|v: Vec<char>| v@).push(
            cur@,
        ));
    }
    if open {
        done.push(cur);
    }
    assert(line@.take(n as int) == line@);
    assert(done@.map_values(|v: Vec<char>| v@) =~= fields(line@));
    done
}

/// The word a device line of `adb devices` shows for a usable device.
pub open spec fn device_word() -> Seq<char> {
    seq!['d', 'e', 'v', 'i', 'c', 'e']
}

/// The serial a line of `adb devices` names, when its second field says the
/// device is usable.
pub open spec fn device_line_serial(line: Seq<char>) -> Option<Seq<char>> {
    let f = fields(line);
    if f.len() >= 2 && f[1] == device_word() {
        Some(f[0])
    } else {
        None
    }
}

/// The first serial that a line from index `k` on names as usable.
pub open spec fn first_device_from(lines: Seq<Seq<char>>, k: int) -> Option<Seq<char>>
    decreases lines.len() - k,
{
    if k < 0 || k >= lines.len() {
        None
    } else if device_line_serial(lines[k]) is Some {
        device_line_serial(lines[k])
    } else {
        first_device_from(lines, k + 1)
    }
}

/// The serial of the first usable device that the output of `adb devices`
/// lists: the first line after the header whose fields are a serial and the
/// word `device`.
pub open spec fn attached_serial(text: Seq<char>) -> Option<Seq<char>> {
    first_device_from(segments(text), 1)
}

/// A field is a non-empty run of characters none of which is White_Space.
pub open spec fn is_token(f: Seq<char>) -> bool {
    f.len() > 0 && forall|i: int| 0 <= i < f.len() ==> !is_white(#[trigger] f[i])
}

proof fn lemma_fields_are_tokens(t: Seq<char>)
    ensures
        forall|k: int| 0 <= k < fields(t).len() ==> is_token(#[trigger] fields(t)[k]),
    decreases t.len(),
{
    if t.len() > 0 {
        lemma_fields_are_tokens(t.drop_last());
        let prev = fields(t.drop_last());
        let c = t.last();
        if !is_white(c) {
            if t.len() >= 2 && !is_white(t[t.len() - 2]) {
                lemma_fields_open_run(t.drop_last());
                let last = prev.last().push(c);
                assert(is_token(prev[prev.len() - 1]));
                assert forall|i: int| 0 <= i < last.len() implies !is_white(#[trigger] last[i]) by {
                    if i < prev.last().len() {
                        assert(last[i] == prev.last()[i]);
                    }
                }
                assert forall|k: int| 0 <= k < fields(t).len() implies is_token(
                    #[trigger] fields(t)[k],
                ) by {
                    if k < prev.len() - 1 {
                        assert(fields(t)[k] == prev[k]);
                    }
                }
            } else {
                assert forall|k: int| 0 <= k < fields(t).len() implies is_token(
                    #[trigger] fields(t)[k],
                ) by {
                    if k < prev.len() {
                        assert(fields(t)[k] == prev[k]);
                    } else {
                        assert(fields(t)[k] == seq![c]);
                    }
                }
            }
        }
    }
}

proof fn lemma_first_device_is_token(lines: Seq<Seq<char>>, k: int)
    ensures
        first_device_from(lines, k) matches Some(s) ==> is_token(s),
    decreases lines.len() - k,
{
    if 0 <= k < lines.len() {
        if device_line_serial(lines[k]) is Some {
            lemma_fields_are_tokens(lines[k]);
            assert(is_token(fields(lines[k])[0]));
        } else {
            lemma_first_device_is_token(lines, k + 1);
        }
    }
}

/// The serial read from a device listing is one whitespace-free word, so it
/// travels to `adb -s` as a single argument.
pub proof fn law_listed_serial_is_one_word(text: Seq<char>)
    ensures
        attached_serial(text) matches Some(s) ==> is_token(s),
{
    lemma_first_device_is_token(segments(text), 1);
}

proof fn lemma_one_line(a: Seq<char>)
    requires
        forall|i: int| 0 <= i < a.len() ==> #[trigger] a[i] != '\n',
    ensures
        segments(a) == seq![a],
    decreases a.len(),
{
    if a.len() == 0 {
        assert(a =~= Seq::<char>::empty());
    } else {
        let a0 = a.drop_last();
        assert forall|i: int| 0 <= i < a0.len() implies #[trigger] a0[i] != '\n' by {
            assert(a0[i] == a[i]);
        }
        lemma_one_line(a0);
        assert(a[a.len() - 1] != '\n');
        assert(a0.push(a.last()) =~= a);
        assert(seq![a0].update(0, a0.push(a.last())) =~= seq![a]);
    }
}

proof fn lemma_split_at_line_feed(a: Seq<char>, b: Seq<char>)
    ensures
        segments(a + seq!['\n'] + b) == segments(a) + segments(b),
    decreases b.len(),
{
    let t = a + seq!['\n'] + b;
    if b.len() == 0 {
        assert(t.drop_last() =~= a);
        assert(t.last() == '\n');
        assert(segments(a).push(Seq::<char>::empty()) =~= segments(a) + segments(b));
    } else {
        let b0 = b.drop_last();
        lemma_split_at_line_feed(a, b0);
        lemma_segments_nonempty(b0);
        assert(t.drop_last() =~= a + seq!['\n'] + b0);
        assert(t.last() == b.last());
        let sa = segments(a);
        let sb0 = segments(b0);
        let c = b.last();
        if c == '\n' {
            assert((sa + sb0).push(Seq::<char>::empty()) =~= sa + sb0.push(Seq::<char>::empty()));
        } else {
            assert((sa + sb0).last() == sb0.last());
            assert((sa + sb0).update((sa + sb0).len() - 1, sb0.last().push(c)) =~= sa + sb0.update(
                sb0.len() - 1,
                sb0.last().push(c),
            ));
        }
    }
}

/// Splitting into lines works line feed by line feed: text with no line feed
/// is one line, and text with a line feed splits there into the lines before
/// it followed by the lines after it.
pub proof fn law_lines_split_at_line_feeds(a: Seq<char>, b: Seq<char>)
    ensures
        (forall|i: int| 0 <= i < a.len() ==> #[trigger] a[i] != '\n') ==> segments(a) == seq![a],
        segments(a + seq!['\n'] + b) == segments(a) + segments(b),
{
    if forall|i: int| 0 <= i < a.len() ==> #[trigger] a[i] != '\n' {
        lemma_one_line(a);
    }
    lemma_split_at_line_feed(a, b);
}

proof fn lemma_one_field(t: Seq<char>)
    requires
        is_token(t),
    ensures
        fields(t) == seq![t],
    decreases t.len(),
{
    let c = t.last();
    assert(!is_white(t[t.len() - 1]));
    if t.len() == 1 {
        assert(t.drop_last() =~= Seq::<char>::empty());
        assert(fields(t.drop_last()) == Seq::<Seq<char>>::empty());
        assert(fields(t) == Seq::<Seq<char>>::empty().push(seq![c]));
        assert(t =~= seq![c]);
        assert(Seq::<Seq<char>>::empty().push(seq![c]) =~= seq![t]);
    } else {
        let t0 = t.drop_last();
        assert forall|i: int| 0 <= i < t0.len() implies !is_white(#[trigger] t0[i]) by {
            assert(t0[i] == t[i]);
        }
        lemma_one_field(t0);
        assert(!is_white(t[t.len() - 2]));
        assert(t0.push(c) =~= t);
        assert(seq![t0].update(0, t0.push(c)) =~= seq![t]);
    }
}

proof fn lemma_split_at_white(a: Seq<char>, c: char, b: Seq<char>)
    requires
        is_white(c),
    ensures
        fields(a + seq![c] + b) == fields(a) + fields(b),
    decreases b.len(),
{
    let t = a + seq![c] + b;
    if b.len() == 0 {
        assert(t.drop_last() =~= a);
        assert(t.last() == c);
        assert(fields(a) + fields(b) =~= fields(a));
    } else {
        let b0 = b.drop_last();
        lemma_split_at_white(a, c, b0);
        assert(t.drop_last() =~= a + seq![c] + b0);
        let d = b.last();
        assert(t.last() == d);
        let fa = fields(a);
        let fb0 = fields(b0);
        if !is_white(d) {
            if b.len() >= 2 {
                assert(t[t.len() - 2] == b[b.len() - 2]);
            } else {
                assert(t[t.len() - 2] == c);
            }
            if b.len() >= 2 && !is_white(b[b.len() - 2]) {
                assert(b0.last() == b[b.len() - 2]);
                lemma_fields_open_run(b0);
                assert((fa + fb0).last() == fb0.last());
                assert((fa + fb0).update((fa + fb0).len() - 1, fb0.last().push(d)) =~= fa
                    + fb0.update(fb0.len() - 1, fb0.last().push(d)));
            } else {
                assert((fa + fb0).push(seq![d]) =~= fa + fb0.push(seq![d]));
            }
        }
    }
}

/// Splitting into fields works by whitespace: a whitespace-free word is one
/// field, and text with a whitespace character splits there into the fields
/// before it followed by the fields after it.
pub proof fn law_fields_split_at_whitespace(a: Seq<char>, c: char, b: Seq<char>)
    ensures
        is_token(a) ==> fields(a) == seq![a],
        is_white(c) ==> fields(a + seq![c] + b) == fields(a) + fields(b),
{
    if is_token(a) {
        lemma_one_field(a);
    }
    if is_white(c) {
        lemma_split_at_white(a, c, b);
    }
}

/// A listing line `<serial>` TAB `<state>` names its serial exactly when the
/// state is the word `device`; so `offline` or `unauthorized` devices are
/// never picked. The first line of a listing is its header and is never
/// taken, and the first device line after it is: the serial of
/// `<header>` LF `<serial>` TAB `device` LF `<rest>` is `<serial>`.
pub proof fn law_device_lines(
    serial: Seq<char>,
    state: Seq<char>,
    header: Seq<char>,
    rest: Seq<char>,
)
    requires
        is_token(serial),
        is_token(state),
    ensures
        device_line_serial(serial + seq!['\t'] + state) == (if state == seq!['d', 'e', 'v', 'i', 'c', 'e'] {
            Some(serial)
        } else {
            None::<Seq<char>>
        }),
        (forall|i: int| 0 <= i < header.len() ==> #[trigger] header[i] != '\n') ==> attached_serial(
            header,
        ) is None,
        (forall|i: int| 0 <= i < header.len() ==> #[trigger] header[i] != '\n') ==> attached_serial(
            header + seq!['\n'] + (serial + seq!['\t'] + seq!['d', 'e', 'v', 'i', 'c', 'e']) + seq![
                '\n',
            ] + rest,
        ) == Some(serial),
{
    assert(is_white('\t'));
    lemma_split_at_white(serial, '\t', state);
    lemma_one_field(serial);
    lemma_one_field(state);
    assert(seq![serial] + seq![state] =~= seq![serial, state]);
    if forall|i: int| 0 <= i < header.len() ==> #[trigger] header[i] != '\n' {
        lemma_one_line(header);
        let dw = seq!['d', 'e', 'v', 'i', 'c', 'e'];
        assert(is_token(dw)) by {
            assert forall|i: int| 0 <= i < dw.len() implies !is_white(#[trigger] dw[i]) by {
                assert(dw[i] == 'd' || dw[i] == 'e' || dw[i] == 'v' || dw[i] == 'i' || dw[i] == 'c');
            }
        }
        let line = serial + seq!['\t'] + dw;
        lemma_split_at_white(serial, '\t', dw);
        lemma_one_field(dw);
        assert(seq![serial] + seq![dw] =~= seq![serial, dw]);
        assert forall|i: int| 0 <= i < line.len() implies #[trigger] line[i] != '\n' by {
            if i < serial.len() {
                assert(line[i] == serial[i]);
                assert(!is_white(serial[i]));
            } else if i == serial.len() {
                assert(line[i] == '\t');
            } else {
                assert(line[i] == dw[i - serial.len() - 1]);
            }
        }
        lemma_one_line(line);
        lemma_split_at_line_feed(line, rest);
        assert(header + seq!['\n'] + line + seq!['\n'] + rest =~= header + seq!['\n'] + (line
            + seq!['\n'] + rest));
        lemma_split_at_line_feed(header, line + seq!['\n'] + rest);
        let lines = segments(header + seq!['\n'] + line + seq!['\n'] + rest);
        assert(lines[1] == line);
        assert(device_word() =~= dw);
    }
}

/// Whether `f` is the word `device`.
fn is_device_word(f: &Vec<char>) -> (b: bool)
    ensures
        b == (f@ == device_word()),
{
    if f.len() != 6 {
        return false;
    }
    let b = f[0] == 'd' && f[1] == 'e' && f[2] == 'v' && f[3] == 'i' && f[4] == 'c' && f[5]
        == 'e';
    if b {
        assert(f@ =~= device_word());
    }
    b
}

/// The serial of the first usable device listed in the output of
/// `adb devices`.
pub fn attached_device_serial(text: &Vec<char>) -> (r: Option<Vec<char>>)
    ensures
        match r {
            Some(s) => attached_serial(text@) == Some(s@),
            None => attached_serial(text@) is None,
        },
{
    let lines = split_segments(text);
    let ghost lv = lines@.map_values(|v: Vec<char>| v@);
    let n = lines.len();
    let mut k: usize = 1;
    while k < n
        invariant
            n == lines@.len(),
            lv == lines@.map_values(|v: Vec<char>| v@),
            lv == segments(text@),
            1 <= k,
            first_device_from(lv, 1) == first_device_from(lv, k as int),
        decreases n - k,
    {
        assert(lv[k as int] == lines@[k as int]@);
        let f = split_fields(&lines[k]);
        assert(f@.map_values(|v: Vec<char>| v@) == fields(lv[k as int]));
        if f.len() >= 2 {
            assert(f@.map_values(|v: Vec<char>| v@)[1] == f@[1]@);
            if is_device_word(&f[1]) {
                assert(f@.map_values(|v: Vec<char>| v@)[0] == f@[0]@);
                let serial = f[0].clone();
                assert(serial@ == f@[0]@);
                return Some(serial);
            }
        }
        k = k + 1;
    }
    None
}

/// What `String::from_utf8_lossy` makes of `bytes`.
pub uninterp spec fn utf8_lossy(bytes: Seq<u8>) -> Seq<char>;

/// Calls `String::from_utf8_lossy` and collects the characters. Its contract
/// claims that the result is a function of the bytes alone, and, as the
/// function's documentation says, that valid UTF-8 comes back as its
/// decoding. Where the bytes are not valid UTF-8 (each invalid sequence then
/// becomes U+FFFD), only the first claim is made.
#[verifier::external_body]
pub fn lossy_chars(bytes: &[u8]) -> (r: Vec<char>)
    ensures
        r@ == utf8_lossy(bytes@),
        valid_utf8(bytes@) ==> r@ == decode_utf8(bytes@),
{
    String::from_utf8_lossy(bytes).chars().collect()
}

/// Whether `w` occurs in `t` starting at index `i`.
pub open spec fn occurs_at(t: Seq<char>, w: Seq<char>, i: int) -> bool {
    0 <= i && i + w.len() <= t.len() && t.subrange(i, i + w.len()) == w
}

/// Whether `w` occurs anywhere in `t`, as `str::contains` tells.
pub open spec fn contains_word(t: Seq<char>, w: Seq<char>) -> bool {
    exists|i: int| occurs_at(t, w, i)
}

/// Whether `w` occurs in `t`.
pub fn contains_chars(t: &Vec<char>, w: &Vec<char>) -> (b: bool)
    ensures
        b == contains_word(t@, w@),
{
    if w.len() > t.len() {
        assert forall|i: int| !occurs_at(t@, w@, i) by {}
        return false;
    }
    if w.len() == 0 {
        assert(t@.subrange(0, 0) =~= w@);
        assert(occurs_at(t@, w@, 0));
        return true;
    }
    let tn = t.len();
    let last = tn - w.len();
    let mut i: usize = 0;
    while i <= last
        invariant
            tn == t@.len(),
            last == t@.len() - w@.len(),
            0 < w@.len() <= t@.len(),
            forall|j: int| 0 <= j < i ==> !occurs_at(t@, w@, j),
        decreases last + 1 - i,
    {
        let mut k: usize = 0;
        let mut same = true;
        while k < w.len()
            invariant
                tn == t@.len(),
                i <= last,
                last == t@.len() - w@.len(),
                0 < w@.len() <= t@.len(),
                k <= w@.len(),
                same == (forall|m: int| 0 <= m < k ==> t@[i + m] == w@[m]),
            decreases w@.len() - k,
        {
            if t[i + k] != w[k] {
                same = false;
            }
            k = k + 1;
        }
        if same {
            assert(t@.subrange(i as int, i + w@.len()) =~= w@);
            assert(occurs_at(t@, w@, i as int));
            return true;
        }
        assert(!occurs_at(t@, w@, i as int)) by {
            if occurs_at(t@, w@, i as int) {
                assert forall|m: int| 0 <= m < w@.len() implies t@[i + m] == w@[m] by {
                    assert(t@.subrange(i as int, i + w@.len())[m] == t@[i + m]);
                }
            }
        }
        i = i + 1;
    }
    false
}

/// `t` with each space replaced by `%s`, the escape the guest's `input text`
/// tool reads as a space.
pub open spec fn escape_spaces(t: Seq<char>) -> Seq<char>
    decreases t.len(),
{
    if t.len() == 0 {
        Seq::<char>::empty()
    } else {
        escape_spaces(t.drop_last()) + if t.last() == ' ' {
            seq!['%', 's']
        } else {
            seq![t.last()]
        }
    }
}

/// Escaped text holds no space, so the guest's `input text` tool receives it
/// as one argument.
pub proof fn law_escaped_has_no_space(t: Seq<char>)
    ensures
        forall|i: int| 0 <= i < escape_spaces(t).len() ==> escape_spaces(t)[i] != ' ',
    decreases t.len(),
{
    if t.len() > 0 {
        law_escaped_has_no_space(t.drop_last());
        let prev = escape_spaces(t.drop_last());
        let tail = if t.last() == ' ' {
            seq!['%', 's']
        } else {
            seq![t.last()]
        };
        assert forall|i: int| 0 <= i < escape_spaces(t).len() implies escape_spaces(t)[i] != ' ' by {
            if i >= prev.len() {
                assert(escape_spaces(t)[i] == tail[i - prev.len()]);
            } else {
                assert(escape_spaces(t)[i] == prev[i]);
            }
        }
    }
}

/// Escaping works character by character: text without a space is left as
/// it is, a lone space becomes `%s`, and the escape of two pieces put
/// together is the two escapes put together.
pub proof fn law_escape_by_characters(a: Seq<char>, b: Seq<char>)
    ensures
        (forall|i: int| 0 <= i < a.len() ==> #[trigger] a[i] != ' ') ==> escape_spaces(a) == a,
        escape_spaces(seq![' ']) == seq!['%', 's'],
        escape_spaces(a + b) == escape_spaces(a) + escape_spaces(b),
    decreases a.len() + b.len(),
{
    assert(escape_spaces(seq![' ']) == seq!['%', 's']) by {
        let one = seq![' '];
        assert(one.drop_last() =~= Seq::<char>::empty());
        assert(one.last() == ' ');
        assert(escape_spaces(Seq::<char>::empty()) == Seq::<char>::empty());
        assert(Seq::<char>::empty() + seq!['%', 's'] =~= seq!['%', 's']);
    }
    if b.len() == 0 {
        assert(a + b =~= a);
        assert(escape_spaces(a) + escape_spaces(b) =~= escape_spaces(a));
    } else {
        law_escape_by_characters(a, b.drop_last());
        assert((a + b).drop_last() =~= a + b.drop_last());
        assert((a + b).last() == b.last());
        let tail = if b.last() == ' ' {
            seq!['%', 's']
        } else {
            seq![b.last()]
        };
        assert(escape_spaces(a) + (escape_spaces(b.drop_last()) + tail) =~= (escape_spaces(a)
            + escape_spaces(b.drop_last())) + tail);
    }
    if forall|i: int| 0 <= i < a.len() ==> #[trigger] a[i] != ' ' {
        if a.len() > 0 {
            let a0 = a.drop_last();
            assert forall|i: int| 0 <= i < a0.len() implies #[trigger] a0[i] != ' ' by {
                assert(a0[i] == a[i]);
            }
            law_escape_by_characters(a0, Seq::<char>::empty());
            assert(a[a.len() - 1] != ' ');
            assert(a0.push(a.last()) =~= a);
            assert(a0 + seq![a.last()] =~= a);
        }
    }
}

/// `text` with each space replaced by `%s`.
pub fn escaped_for_input(text: &str) -> (r: String)
    ensures
        r@ == escape_spaces(text@),
{
    let cs = chars_of(text);
    let mut out = String::new();
    for i in 0..cs.len()
        invariant
            cs@ == text@,
            out@ == escape_spaces(cs@.take(i as int)),
    {
        let c = cs[i];
        assert(cs@.take(i + 1).drop_last() == cs@.take(i as int));
        if c == ' ' {
            out.push('%');
            out.push('s');
        } else {
            out.push(c);
        }
        assert(out@ =~= escape_spaces(cs@.take(i + 1)));
    }
    assert(cs@.take(cs@.len() as int) == cs@);
    out
}

/// The decimal digit character for `d`, which is below ten.
pub open spec fn digit_char(d: int) -> char {
    if d == 0 {
        '0'
    } else if d == 1 {
        '1'
    } else if d == 2 {
        '2'
    } else if d == 3 {
        '3'
    } else if d == 4 {
        '4'
    } else if d == 5 {
        '5'
    } else if d == 6 {
        '6'
    } else if d == 7 {
        '7'
    } else if d == 8 {
        '8'
    } else {
        '9'
    }
}

/// The decimal digits of `n`, most significant first, without leading zeros.
pub open spec fn nat_decimal(n: nat) -> Seq<char>
    decreases n,
{
    if n < 10 {
        seq![digit_char(n as int)]
    } else {
        nat_decimal(n / 10).push(digit_char((n % 10) as int))
    }
}

/// The decimal rendering of `n`, as `to_string` writes an integer.
pub open spec fn int_decimal(n: int) -> Seq<char> {
    if n < 0 {
        seq!['-'] + nat_decimal((-n) as nat)
    } else {
        nat_decimal(n as nat)
    }
}

/// The number a decimal digit character stands for.
pub open spec fn digit_value(c: char) -> int {
    if c == '1' {
        1
    } else if c == '2' {
        2
    } else if c == '3' {
        3
    } else if c == '4' {
        4
    } else if c == '5' {
        5
    } else if c == '6' {
        6
    } else if c == '7' {
        7
    } else if c == '8' {
        8
    } else if c == '9' {
        9
    } else {
        0
    }
}

/// Whether `c` is one of the characters `0` to `9`.
pub open spec fn is_digit(c: char) -> bool {
    c == '0' || c == '1' || c == '2' || c == '3' || c == '4' || c == '5' || c == '6' || c == '7'
        || c == '8' || c == '9'
}

/// The number a string of decimal digits stands for, most significant first.
pub open spec fn digits_value(t: Seq<char>) -> int
    decreases t.len(),
{
    if t.len() == 0 {
        0
    } else {
        digits_value(t.drop_last()) * 10 + digit_value(t.last())
    }
}

proof fn lemma_digit_round_trip(d: int)
    requires
        0 <= d < 10,
    ensures
        digit_value(digit_char(d)) == d,
        is_digit(digit_char(d)),
        d != 0 ==> digit_char(d) != '0',
{
}

/// The decimal rendering of `n` is made of digits that read back as `n`,
/// with no leading zero.
pub proof fn law_decimal_reads_back(n: nat)
    ensures
        nat_decimal(n).len() >= 1,
        forall|i: int| 0 <= i < nat_decimal(n).len() ==> is_digit(#[trigger] nat_decimal(n)[i]),
        digits_value(nat_decimal(n)) == n,
        n >= 10 ==> nat_decimal(n)[0] != '0',
    decreases n,
{
    if n < 10 {
        lemma_digit_round_trip(n as int);
        let one = seq![digit_char(n as int)];
        assert(one.drop_last() =~= Seq::<char>::empty());
        assert(digits_value(one.drop_last()) == 0);
        assert(digits_value(one) == digit_value(one.last()));
    } else {
        law_decimal_reads_back(n / 10);
        lemma_digit_round_trip((n % 10) as int);
        if n / 10 < 10 {
            lemma_digit_round_trip((n / 10) as int);
        }
        let p = nat_decimal(n / 10);
        let d = digit_char((n % 10) as int);
        assert(p.push(d).drop_last() =~= p);
        assert(p.push(d)[0] == p[0]);
        assert forall|i: int| 0 <= i < p.push(d).len() implies is_digit(#[trigger] p.push(d)[i]) by {
            if i < p.len() {
                assert(p.push(d)[i] == p[i]);
            }
        }
        assert(nat_decimal(n) == p.push(d));
        assert(p.push(d).last() == d);
        assert(digits_value(p.push(d)) == digits_value(p) * 10 + digit_value(d));
        assert(n == (n / 10) * 10 + n % 10);
    }
}

/// A negative number is rendered as a minus sign before the rendering of its
/// magnitude; any other as its digits alone.
pub proof fn law_signed_decimal(n: int)
    ensures
        n < 0 ==> int_decimal(n)[0] == '-' && int_decimal(n).drop_first() == nat_decimal((-n) as nat),
        n >= 0 ==> int_decimal(n) == nat_decimal(n as nat),
{
    if n < 0 {
        assert((seq!['-'] + nat_decimal((-n) as nat)).drop_first() =~= nat_decimal((-n) as nat));
    }
}

fn digit(d: u64) -> (c: char)
    requires
        d < 10,
    ensures
        c == digit_char(d as int),
{
    if d == 0 {
        '0'
    } else if d == 1 {
        '1'
    } else if d == 2 {
        '2'
    } else if d == 3 {
        '3'
    } else if d == 4 {
        '4'
    } else if d == 5 {
        '5'
    } else if d == 6 {
        '6'
    } else if d == 7 {
        '7'
    } else if d == 8 {
        '8'
    } else {
        '9'
    }
}

fn push_digits(out: &mut String, m: u64)
    ensures
        final(out)@ == old(out)@ + nat_decimal(m as nat),
    decreases m,
{
    let ghost before = out@;
    if m >= 10 {
        push_digits(out, m / 10);
    }
    out.push(digit(m % 10));
    assert(out@ =~= before + nat_decimal(m as nat));
}

/// The decimal rendering of `n`.
pub fn decimal(n: i32) -> (r: String)
    ensures
        r@ == int_decimal(n as int),
{
    let mut out = String::new();
    if n < 0 {
        out.push('-');
        let m: u64 = (0i64 - (n as i64)) as u64;
        push_digits(&mut out, m);
    } else {
        push_digits(&mut out, n as u64);
    }
    assert(out@ =~= int_decimal(n as int));
    out
}

} // verus!

//! The response serializer: the client-facing JSON body, written once and
//! then replayed byte-for-byte from the cache. The encoding is compact JSON
//! with the usual string escapes: quote and backslash escaped, the named
//! control escapes for backspace, tab, newline, form feed and carriage
//! return, `\u00..` for the other control characters, and every other
//! character written as itself.

use vstd::prelude::*;

verus! {

use vstd::string::StringExecFns;

use crate::cache::ContentView;
use crate::cache::TilesContent;
use crate::text::dec_str;
use crate::text::str_chars;
use crate::text::u32_dec;
use crate::text::u64_dec;
use crate::tiles::Tile;
use crate::tiles::TileView;

/// The lowercase hex digit for `d` (meaningful for `d < 16`).
pub open spec fn hex_digit(d: nat) -> char {
    if d < 10 {
        crate::text::digit_char(d)
    } else if d == 10 {
        'a'
    } else if d == 11 {
        'b'
    } else if d == 12 {
        'c'
    } else if d == 13 {
        'd'
    } else if d == 14 {
        'e'
    } else {
        'f'
    }
}

/// How one character is written inside a JSON string.
pub open spec fn escape_char(c: char) -> Seq<char> {
    if c == '"' {
        seq!['\\', '"']
    } else if c == '\\' {
        seq!['\\', '\\']
    } else if c == '\u{08}' {
        seq!['\\', 'b']
    } else if c == '\u{09}' {
        seq!['\\', 't']
    } else if c == '\u{0A}' {
        seq!['\\', 'n']
    } else if c == '\u{0C}' {
        seq!['\\', 'f']
    } else if c == '\u{0D}' {
        seq!['\\', 'r']
    } else if (c as u32) < 0x20 {
        seq!['\\', 'u', '0', '0', hex_digit((c as u32 / 16) as nat), hex_digit(
            (c as u32 % 16) as nat,
        )]
    } else {
        seq![c]
    }
}

/// A character sequence, escaped for a JSON string.
pub open spec fn json_escaped(s: Seq<char>) -> Seq<char>
    decreases s.len(),
{
    if s.len() == 0 {
        Seq::empty()
    } else {
        json_escaped(s.drop_last()) + escape_char(s.last())
    }
}

/// A JSON string: the escaped characters between quotes.
pub open spec fn json_string(s: Seq<char>) -> Seq<char> {
    seq!['"'] + json_escaped(s) + seq!['"']
}

fn hex_digit_exec(d: u32) -> (r: char)
    requires
        d < 16,
    ensures
        r == hex_digit(d as nat),
{
    match d {
        0 => '0',
        1 => '1',
        2 => '2',
        3 => '3',
        4 => '4',
        5 => '5',
        6 => '6',
        7 => '7',
        8 => '8',
        9 => '9',
        10 => 'a',
        11 => 'b',
        12 => 'c',
        13 => 'd',
        14 => 'e',
        _ => 'f',
    }
}

fn escape_into(out: &mut String, c: char)
    ensures
        final(out)@ == old(out)@ + escape_char(c),
{
    if c == '"' {
        out.push('\\');
        out.push('"');
        assert(final(out)@ =~= old(out)@ + escape_char(c));
    } else if c == '\\' {
        out.push('\\');
        out.push('\\');
        assert(final(out)@ =~= old(out)@ + escape_char(c));
    } else if c == '\u{08}' {
        out.push('\\');
        out.push('b');
        assert(final(out)@ =~= old(out)@ + escape_char(c));
    } else if c == '\u{09}' {
        out.push('\\');
        out.push('t');
        assert(final(out)@ =~= old(out)@ + escape_char(c));
    } else if c == '\u{0A}' {
        out.push('\\');
        out.push('n');
        assert(final(out)@ =~= old(out)@ + escape_char(c));
    } else if c == '\u{0C}' {
        out.push('\\');
        out.push('f');
        assert(final(out)@ =~= old(out)@ + escape_char(c));
    } else if c == '\u{0D}' {
        out.push('\\');
        out.push('r');
        assert(final(out)@ =~= old(out)@ + escape_char(c));
    } else {
        let code = c as u32;
        if code < 0x20 {
            out.push('\\');
            out.push('u');
            out.push('0');
            out.push('0');
            out.push(hex_digit_exec(code / 16));
            out.push(hex_digit_exec(code % 16));
            assert(final(out)@ =~= old(out)@ + escape_char(c));
        } else {
            out.push(c);
            assert(final(out)@ =~= old(out)@ + escape_char(c));
        }
    }
}

fn json_string_into(out: &mut String, s: &str)
    ensures
        final(out)@ == old(out)@ + json_string(s@),
{
    out.push('"');
    let chars = str_chars(s);
    let mut i: usize = 0;
    assert(s@.take(0) =~= Seq::<char>::empty());
    while i < chars.len()
        invariant
            0 <= i <= chars@.len(),
            chars@ == s@,
            out@ == old(out)@ + seq!['"'] + json_escaped(s@.take(i as int)),
        decreases chars@.len() - i,
    {
        escape_into(out, chars[i]);
        proof {
            assert(s@.take(i as int + 1).drop_last() =~= s@.take(i as int));
            assert(s@.take(i as int + 1).last() == s@[i as int]);
            assert(out@ =~= old(out)@ + seq!['"'] + json_escaped(s@.take(i as int + 1)));
        }
        i += 1;
    }
    assert(s@.take(s@.len() as int) =~= s@);
    out.push('"');
    assert(final(out)@ =~= old(out)@ + json_string(s@));
}

/// One tile, serialized: the fields in wire order, strings escaped, a
/// missing image size written as `null`.
pub open spec fn tile_json(t: TileView) -> Seq<char> {
    "{\"id\":"@ + dec_str(t.id as nat) + ",\"name\":"@ + json_string(t.name) + ",\"url\":"@
        + json_string(t.url) + ",\"click_url\":"@ + json_string(t.click_url) + ",\"image_url\":"@
        + json_string(t.image_url) + ",\"image_size\":"@ + (match t.image_size {
        Some(n) => dec_str(n as nat),
        None => "null"@,
    }) + ",\"impression_url\":"@ + json_string(t.impression_url) + "}"@
}

fn tile_json_into(out: &mut String, t: &Tile)
    ensures
        final(out)@ == old(out)@ + tile_json(t@),
{
    out.append("{\"id\":");
    out.append(u64_dec(t.id).as_str());
    out.append(",\"name\":");
    json_string_into(out, t.name.as_str());
    out.append(",\"url\":");
    json_string_into(out, t.url.as_str());
    out.append(",\"click_url\":");
    json_string_into(out, t.click_url.as_str());
    out.append(",\"image_url\":");
    json_string_into(out, t.image_url.as_str());
    out.append(",\"image_size\":");
    match t.image_size {
        Some(n) => out.append(u32_dec(n).as_str()),
        None => out.append("null"),
    }
    out.append(",\"impression_url\":");
    json_string_into(out, t.impression_url.as_str());
    out.append("}");
    assert(final(out)@ =~= old(out)@ + tile_json(t@));
}

/// A tile list, serialized: the tiles in order, separated by commas.
pub open spec fn tiles_json(ts: Seq<TileView>) -> Seq<char>
    decreases ts.len(),
{
    if ts.len() == 0 {
        Seq::empty()
    } else if ts.len() == 1 {
        tile_json(ts[0])
    } else {
        tiles_json(ts.drop_last()) + ","@ + tile_json(ts.last())
    }
}

/// The response body: the serialized tiles under the `tiles` key.
pub open spec fn response_json(ts: Seq<TileView>) -> Seq<char> {
    "{\"tiles\":["@ + tiles_json(ts) + "]}"@
}

/// Serializes the response body for a tile list.
pub fn response_json_string(tiles: &Vec<Tile>) -> (r: String)
    ensures
        r@ == response_json(tiles.deep_view()),
{
    let mut out = String::new();
    out.append("{\"tiles\":[");
    let ghost ts = tiles.deep_view();
    let mut i: usize = 0;
    assert(ts.take(0) =~= Seq::<TileView>::empty());
    while i < tiles.len()
        invariant
            0 <= i <= tiles@.len(),
            ts == tiles.deep_view(),
            ts.len() == tiles@.len(),
            out@ == "{\"tiles\":["@ + tiles_json(ts.take(i as int)),
        decreases tiles@.len() - i,
    {
        if i > 0 {
            out.append(",");
        }
        tile_json_into(&mut out, &tiles[i]);
        proof {
            let pre = ts.take(i as int + 1);
            assert(pre.drop_last() =~= ts.take(i as int));
            assert(pre.last() == ts[i as int]);
            assert(ts[i as int] == tiles@[i as int]@);
            if i == 0 {
                assert(pre.len() == 1);
                assert(pre[0] == ts[0]);
                assert(tiles_json(pre) == tile_json(ts[0]));
                assert(out@ =~= "{\"tiles\":["@ + tiles_json(pre));
            } else {
                assert(tiles_json(pre) == tiles_json(ts.take(i as int)) + ","@ + tile_json(
                    ts[i as int],
                ));
                assert(out@ =~= "{\"tiles\":["@ + tiles_json(pre));
            }
        }
        i += 1;
    }
    assert(ts.take(ts.len() as int) =~= ts);
    out.append("]}");
    assert(out@ =~= response_json(ts));
    out
}

/// The cached body for a filtered, decorated tile list: nothing where the
/// list is empty, its serialization otherwise.
pub fn finalize_tiles(tiles: &Vec<Tile>) -> (r: TilesContent)
    ensures
        r@ == if tiles.deep_view().len() == 0 {
            ContentView::Empty
        } else {
            ContentView::Json(response_json(tiles.deep_view()))
        },
{
    if tiles.len() == 0 {
        TilesContent::Empty
    } else {
        TilesContent::Json(response_json_string(tiles))
    }
}

} // verus!

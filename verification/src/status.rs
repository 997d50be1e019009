//! Pure presentation helpers: the generation progress line and path
//! shortening for narrow columns. They are functions of the injected elapsed
//! time and the text received so far; the screen itself is drawn outside
//! this crate.

use vstd::prelude::*;
use crate::text::dec_seq;
use crate::text::u64_to_string;
use crate::text::usize_to_string;
use crate::text::repeat_seq;
use crate::text::repeat_str;

verus! {

/// The spinner glyph for one animation step.
pub open spec fn frame_glyph(idx: int) -> Seq<char> {
    if idx == 0 {
        "\u{280b}"@
    } else if idx == 1 {
        "\u{2819}"@
    } else if idx == 2 {
        "\u{281a}"@
    } else if idx == 3 {
        "\u{281e}"@
    } else if idx == 4 {
        "\u{2816}"@
    } else if idx == 5 {
        "\u{2826}"@
    } else if idx == 6 {
        "\u{2834}"@
    } else {
        "\u{2838}"@
    }
}

fn frame_glyph_str(idx: u64) -> (r: &'static str)
    requires
        idx < 8,
    ensures
        r@ == frame_glyph(idx as int),
{
    if idx == 0 {
        "\u{280b}"
    } else if idx == 1 {
        "\u{2819}"
    } else if idx == 2 {
        "\u{281a}"
    } else if idx == 3 {
        "\u{281e}"
    } else if idx == 4 {
        "\u{2816}"
    } else if idx == 5 {
        "\u{2826}"
    } else if idx == 6 {
        "\u{2834}"
    } else {
        "\u{2838}"
    }
}

/// The progress line shown while the generation runs: a spinner stepped
/// every 200 ms, the elapsed seconds, a hint once the provider has been
/// silent for 15 s, and the count of received characters once any arrived.
pub open spec fn generation_status_spec(elapsed_ms: u64, generated: Seq<char>) -> Seq<char> {
    let frame = frame_glyph(((elapsed_ms / 200) % 8) as int);
    let secs = dec_seq((elapsed_ms / 1000) as nat);
    if generated.len() == 0 {
        if elapsed_ms / 1000 >= 15 {
            "tracking... "@ + frame + " "@ + secs + "s (waiting for provider response)"@
        } else {
            "tracking... "@ + frame + " "@ + secs + "s"@
        }
    } else {
        "tracking... "@ + frame + " "@ + secs + "s, "@ + dec_seq(generated.len())
            + " chars received"@
    }
}

/// Renders the progress line for the given elapsed time and received text.
pub fn generation_status(elapsed_ms: u64, generated: &str) -> (r: String)
    ensures
        r@ == generation_status_spec(elapsed_ms, generated@),
{
    let frame = frame_glyph_str((elapsed_ms / 200) % 8);
    let secs = u64_to_string(elapsed_ms / 1000);
    let glen: usize = generated.unicode_len();
    let mut r = "tracking... ".to_owned();
    r.append(frame);
    r.append(" ");
    r.append(secs.as_str());
    if glen == 0 {
        if elapsed_ms / 1000 >= 15 {
            r.append("s (waiting for provider response)");
        } else {
            r.append("s");
        }
    } else {
        r.append("s, ");
        let count = usize_to_string(glen);
        r.append(count.as_str());
        r.append(" chars received");
    }
    proof {
        assert(r@ =~= generation_status_spec(elapsed_ms, generated@));
    }
    r
}

/// A path shortened to at most `max_chars` characters: short paths stay as
/// they are; otherwise an ellipsis is put before the path's tail, and at
/// widths of three or less only dots remain.
pub open spec fn ellipsize_path_spec(path: Seq<char>, max_chars: nat) -> Seq<char> {
    if max_chars == 0 || path.len() <= max_chars {
        path
    } else if max_chars <= 3 {
        repeat_seq("."@, max_chars)
    } else {
        "..."@ + path.skip(path.len() - (max_chars - 3))
    }
}

/// Shortens a path for a column of the given width.
pub fn ellipsize_path(path: &str, max_chars: usize) -> (r: String)
    ensures
        r@ == ellipsize_path_spec(path@, max_chars as nat),
{
    let len: usize = path.unicode_len();
    if max_chars == 0 || len <= max_chars {
        return path.to_owned();
    }
    if max_chars <= 3 {
        return repeat_str(".", max_chars);
    }
    let tail_len: usize = max_chars - 3;
    let mut r = "...".to_owned();
    r.append(path.substring_char(len - tail_len, len));
    proof {
        assert(path@.subrange(path@.len() - (max_chars - 3), path@.len() as int) =~= path@.skip(
            path@.len() - (max_chars - 3),
        ));
        assert(r@ =~= ellipsize_path_spec(path@, max_chars as nat));
    }
    r
}

} // verus!

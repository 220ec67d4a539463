//! Scraping element content out of an HTML page by `id` attribute.
//!
//! [`extract_by_id`] mirrors the Wi-Fi example's page scraper: it looks
//! for `id="<value>"`, walks back to the opening `<`, skips self-closing
//! tags, and returns what stands between the opening tag and the
//! matching closing tag — provided it fits the bounded result string.
//! [`scan_chunk`] combines the two scraped fields of the time page into
//! one `HH:MM:SS` reading.

use vstd::prelude::*;
use vstd::utf8::encode_utf8;

use crate::hstring::hstring32_from_str;
use crate::hstring::hstring32_text;
use crate::hstring::hstring_as_str;
use crate::hstring::hstring_from_str;
use crate::hstring::hstring_text;
use crate::search::find_char_at;
use crate::search::find_char_spec;
use crate::search::find_sub;
use crate::search::find_sub_spec;
use crate::search::occurs_at;
use crate::search::rfind_char;
use crate::search::rfind_char_spec;

verus! {

/// The attribute pattern searched for: `id="<value>"`.
pub open spec fn id_attr(id: Seq<char>) -> Seq<char> {
    seq!['i', 'd', '=', '"'] + id + seq!['"']
}

/// The closing tag for an element named `name`: `</name>`.
pub open spec fn close_tag_of(name: Seq<char>) -> Seq<char> {
    seq!['<', '/'] + name + seq!['>']
}

/// One attempt at the attribute occurrence starting at `astart`: walk
/// back to the opening `<`, forward to the closing `>`, reject
/// self-closing tags, read the tag name, and take everything up to the
/// matching closing tag — if its UTF-8 encoding fits 256 bytes.
pub open spec fn attempt_at(h: Seq<char>, id: Seq<char>, astart: int) -> Option<Seq<char>> {
    match rfind_char_spec(h, '<', astart) {
        Option::None => Option::None,
        Option::Some(tag_start) => match find_char_spec(h, '>', astart) {
            Option::None => Option::None,
            Option::Some(gt) => {
                let slash = find_char_spec(h, '/', astart);
                if slash is Some && slash->Some_0 < gt {
                    Option::None
                } else {
                    let name_start = tag_start + 1;
                    let space = find_char_spec(h, ' ', name_start);
                    let name_end = if space is Some && space->Some_0 < astart {
                        space->Some_0
                    } else {
                        astart
                    };
                    let name = h.subrange(name_start, name_end);
                    match find_sub_spec(h, close_tag_of(name), gt + 1) {
                        Option::None => Option::None,
                        Option::Some(close_pos) => {
                            let content = h.subrange(gt + 1, close_pos);
                            if encode_utf8(content).len() <= 256 {
                                Option::Some(content)
                            } else {
                                Option::None
                            }
                        },
                    }
                }
            },
        },
    }
}

/// What [`extract_by_id`] returns, scanning from `pos`: the content of
/// the first attribute occurrence whose attempt succeeds, trying each
/// occurrence of `id="<value>"` in order.
pub open spec fn extract_spec(h: Seq<char>, id: Seq<char>, pos: int) -> Option<Seq<char>>
    decreases h.len() - pos when 0 <= pos
{
    if pos + id_attr(id).len() > h.len() {
        Option::None
    } else if occurs_at(h, id_attr(id), pos) {
        match attempt_at(h, id, pos) {
            Option::Some(content) => Option::Some(content),
            Option::None => extract_spec(h, id, pos + 1),
        }
    } else {
        extract_spec(h, id, pos + 1)
    }
}

/// When the attribute pattern has no occurrence at or after `pos`, the
/// scan yields nothing.
proof fn lemma_extract_unfound(h: Seq<char>, id: Seq<char>, pos: int)
    requires
        0 <= pos <= h.len(),
        find_sub_spec(h, id_attr(id), pos) is None,
    ensures
        extract_spec(h, id, pos) is None,
    decreases h.len() - pos,
{
    if pos + id_attr(id).len() <= h.len() {
        lemma_extract_unfound(h, id, pos + 1);
    }
}

/// When the first occurrence at or after `pos` stands at `astart` and
/// its attempt fails, the scan from `pos` equals the scan from just past
/// that occurrence.
proof fn lemma_extract_skip(h: Seq<char>, id: Seq<char>, pos: int, astart: int)
    requires
        0 <= pos <= h.len(),
        find_sub_spec(h, id_attr(id), pos) == Option::Some(astart),
        attempt_at(h, id, astart) is None,
    ensures
        extract_spec(h, id, pos) == extract_spec(h, id, astart + 1),
    decreases h.len() - pos,
{
    if pos + id_attr(id).len() <= h.len() && !occurs_at(h, id_attr(id), pos) {
        lemma_extract_skip(h, id, pos + 1, astart);
    }
}

/// When the first occurrence at or after `pos` stands at `astart` and
/// its attempt succeeds, the scan from `pos` returns that content.
proof fn lemma_extract_hit(h: Seq<char>, id: Seq<char>, pos: int, astart: int)
    requires
        0 <= pos <= h.len(),
        find_sub_spec(h, id_attr(id), pos) == Option::Some(astart),
        attempt_at(h, id, astart) is Some,
    ensures
        extract_spec(h, id, pos) == attempt_at(h, id, astart),
    decreases h.len() - pos,
{
    if pos + id_attr(id).len() <= h.len() && !occurs_at(h, id_attr(id), pos) {
        lemma_extract_hit(h, id, pos + 1, astart);
    }
}

/// Extract the content of the element carrying `id="<id_value>"`,
/// trying each occurrence of the attribute in order and skipping
/// self-closing tags, elements without a closing tag, and content too
/// long for the 256-byte result string.
pub fn extract_by_id(html: &str, id_value: &str) -> (content: Option<heapless::String<256>>)
    ensures
        match content {
            Option::Some(text) => extract_spec(html@, id_value@, 0) == Option::Some(
                hstring_text(text),
            ),
            Option::None => extract_spec(html@, id_value@, 0) is None,
        },
{
    let mut attr = String::from_str("id=\"");
    attr.append(id_value);
    attr.append("\"");
    proof {
        reveal_strlit("id=\"");
        reveal_strlit("\"");
        assert(attr@ =~= id_attr(id_value@));
    }

    let n = html.unicode_len();
    let mut pos: usize = 0;

    loop
        invariant
            n == html@.len() <= usize::MAX,
            pos <= n,
            attr@ == id_attr(id_value@),
            extract_spec(html@, id_value@, 0) == extract_spec(html@, id_value@, pos as int),
        decreases n - pos,
    {
        let astart = match find_sub(html, attr.as_str(), pos) {
            Some(p) => p,
            None => {
                proof {
                    lemma_extract_unfound(html@, id_value@, pos as int);
                }
                return None;
            },
        };
        // Walk back to the start of the opening tag.
        let tag_start = match rfind_char(html, '<', astart) {
            Some(p) => p,
            None => {
                proof {
                    lemma_extract_skip(html@, id_value@, pos as int, astart as int);
                }
                pos = astart + 1;
                continue ;
            },
        };

        // Find the end of the opening tag.
        let gt = match find_char_at(html, '>', astart) {
            Some(p) => p,
            None => {
                proof {
                    lemma_extract_skip(html@, id_value@, pos as int, astart as int);
                }
                pos = astart + 1;
                continue ;
            },
        };

        // A self-closing tag has no content to extract.
        let self_closing = match find_char_at(html, '/', astart) {
            Some(slash) => slash < gt,
            None => false,
        };
        if self_closing {
            proof {
                lemma_extract_skip(html@, id_value@, pos as int, astart as int);
            }
            pos = astart + 1;
            continue ;
        }

        // The tag name runs to the first space, or to the attribute.
        let name_start = tag_start + 1;
        let name_end = match find_char_at(html, ' ', name_start) {
            Some(space) => if space < astart {
                space
            } else {
                astart
            },
            None => astart,
        };
        let name = html.substring_char(name_start, name_end);

        let mut close_tag = String::from_str("</");
        close_tag.append(name);
        close_tag.append(">");
        proof {
            reveal_strlit("</");
            reveal_strlit(">");
            assert(close_tag@ =~= close_tag_of(name@));
        }

        // Find the matching closing tag after the content.
        let close_pos = match find_sub(html, close_tag.as_str(), gt + 1) {
            Some(p) => p,
            None => {
                proof {
                    lemma_extract_skip(html@, id_value@, pos as int, astart as int);
                }
                pos = astart + 1;
                continue ;
            },
        };

        let content_str = html.substring_char(gt + 1, close_pos);
        match hstring_from_str(content_str) {
            Some(text) => {
                proof {
                    lemma_extract_hit(html@, id_value@, pos as int, astart as int);
                }
                return Some(text);
            },
            None => {
                proof {
                    lemma_extract_skip(html@, id_value@, pos as int, astart as int);
                }
                pos = astart + 1;
            },
        }
    }
}

/// What scanning one body chunk of the time page produced.
pub enum ChunkScan {
    /// Both fields were found and their combination fits the bounded
    /// result: the reading, as `HH:MM:SS`.
    Found(heapless::String<32>),
    /// Both fields were found but the combination does not fit the
    /// 32-byte result string; scanning further chunks is pointless.
    TooLong,
    /// At least one field is missing from this chunk; keep reading.
    NotYet,
}

/// Scan one chunk of the time page for the clock (`clk_hm`) and seconds
/// (`ij0`) fields, and combine them into one `HH:MM:SS` reading.
pub fn scan_chunk(chunk: &str) -> (result: ChunkScan)
    ensures
        match (extract_spec(chunk@, "clk_hm"@, 0), extract_spec(chunk@, "ij0"@, 0)) {
            (Option::Some(title), Option::Some(secs)) => {
                let combined = title + seq![':'] + secs;
                if encode_utf8(combined).len() <= 32 {
                    &&& result matches ChunkScan::Found(text)
                    &&& hstring32_text(text) == combined
                } else {
                    result is TooLong
                }
            },
            _ => result is NotYet,
        },
{
    let title = match extract_by_id(chunk, "clk_hm") {
        Some(t) => t,
        None => {
            return ChunkScan::NotYet;
        },
    };
    let secs = match extract_by_id(chunk, "ij0") {
        Some(s) => s,
        None => {
            return ChunkScan::NotYet;
        },
    };

    let mut combined = String::from_str(hstring_as_str(&title));
    combined.append(":");
    combined.append(hstring_as_str(&secs));
    proof {
        reveal_strlit(":");
        assert(combined@ =~= hstring_text(title) + seq![':'] + hstring_text(secs));
    }

    match hstring32_from_str(combined.as_str()) {
        Some(text) => ChunkScan::Found(text),
        None => ChunkScan::TooLong,
    }
}

} // verus!

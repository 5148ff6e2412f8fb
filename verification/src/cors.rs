//! The cross-origin policy: which origins, methods and request headers the
//! browser may use, read from comma-separated settings.
use vstd::prelude::*;
use vstd::string::*;

use crate::text::{ascii_lower, opt_str_view, split, split_char, to_ascii_lowercase, trim, trim_ws, views};
use crate::wire::{
    header_name_ok, header_name_parses, header_value_ok, is_header_value, method_ok, method_parses,
};

verus! {

/// Which list a setting configures.
#[derive(Debug, Clone, Copy, PartialEq, Eq, Structural)]
pub enum CorsKind {
    /// `ALLOWED_ORIGINS`: each item must be a valid header value.
    Origins,
    /// `ALLOWED_METHODS`: each item must be a valid request method.
    Methods,
    /// `ALLOWED_HEADERS`: each item, lower-cased, must be a valid header name.
    Headers,
}

/// The default list of a kind, as text.
pub open spec fn default_text(kind: CorsKind) -> Seq<char> {
    match kind {
        CorsKind::Origins => "http://localhost:5173,http://localhost:3000"@,
        CorsKind::Methods => "GET,POST,PUT,PATCH,DELETE,OPTIONS"@,
        CorsKind::Headers => "authorization,content-type"@,
    }
}

/// A configured item as kept: trimmed, non-empty, lower-cased for header
/// names, and valid for its kind.
pub open spec fn configured_item(kind: CorsKind, part: Seq<char>) -> Option<Seq<char>> {
    let t = trim_ws(part);
    if t.len() == 0 {
        None
    } else {
        match kind {
            CorsKind::Origins => if is_header_value(t) {
                Some(t)
            } else {
                None
            },
            CorsKind::Methods => if method_parses(t) {
                Some(t)
            } else {
                None
            },
            CorsKind::Headers => {
                let l = t.map_values(|c: char| ascii_lower(c));
                if header_name_parses(l) {
                    Some(l)
                } else {
                    None
                }
            },
        }
    }
}

/// A default item as kept: as written, when valid for its kind.
pub open spec fn default_item(kind: CorsKind, part: Seq<char>) -> Option<Seq<char>> {
    let ok = match kind {
        CorsKind::Origins => is_header_value(part),
        CorsKind::Methods => method_parses(part),
        CorsKind::Headers => header_name_parses(part),
    };
    if ok {
        Some(part)
    } else {
        None
    }
}

/// The items kept from `parts`, in order.
pub open spec fn kept_items(
    parts: Seq<Seq<char>>,
    keep: spec_fn(Seq<char>) -> Option<Seq<char>>,
) -> Seq<Seq<char>>
    decreases parts.len(),
{
    if parts.len() == 0 {
        Seq::empty()
    } else {
        let prev = kept_items(parts.drop_last(), keep);
        match keep(parts.last()) {
            Some(x) => prev.push(x),
            None => prev,
        }
    }
}

/// The list of a kind for a setting (`None` when unset): the valid items of
/// the setting, or the valid items of the default when none is valid.
pub open spec fn cors_list(kind: CorsKind, raw: Option<Seq<char>>) -> Seq<Seq<char>> {
    let text = match raw {
        Some(t) => t,
        None => default_text(kind),
    };
    let configured = kept_items(split_char(text, ','), |p: Seq<char>| configured_item(kind, p));
    if configured.len() > 0 {
        configured
    } else {
        kept_items(split_char(default_text(kind), ','), |p: Seq<char>| default_item(kind, p))
    }
}

fn default_str(kind: CorsKind) -> (r: &'static str)
    ensures
        r@ == default_text(kind),
{
    match kind {
        CorsKind::Origins => "http://localhost:5173,http://localhost:3000",
        CorsKind::Methods => "GET,POST,PUT,PATCH,DELETE,OPTIONS",
        CorsKind::Headers => "authorization,content-type",
    }
}

fn keep_configured(kind: CorsKind, part: &str) -> (r: Option<String>)
    ensures
        match r {
            Some(x) => configured_item(kind, part@) == Some(x@),
            None => configured_item(kind, part@) is None,
        },
{
    let t = trim(part);
    if t.unicode_len() == 0 {
        return None;
    }
    match kind {
        CorsKind::Origins => if header_value_ok(t) {
            Some(String::from_str(t))
        } else {
            None
        },
        CorsKind::Methods => if method_ok(t) {
            Some(String::from_str(t))
        } else {
            None
        },
        CorsKind::Headers => {
            let l = to_ascii_lowercase(t);
            if header_name_ok(l.as_str()) {
                Some(l)
            } else {
                None
            }
        },
    }
}

fn keep_default(kind: CorsKind, part: &str) -> (r: Option<String>)
    ensures
        match r {
            Some(x) => default_item(kind, part@) == Some(x@),
            None => default_item(kind, part@) is None,
        },
{
    let ok = match kind {
        CorsKind::Origins => header_value_ok(part),
        CorsKind::Methods => method_ok(part),
        CorsKind::Headers => header_name_ok(part),
    };
    if ok {
        Some(String::from_str(part))
    } else {
        None
    }
}

fn keep_all(kind: CorsKind, text: &str, configured: bool) -> (r: Vec<String>)
    ensures
        views(r@) == kept_items(
            split_char(text@, ','),
            if configured {
                |p: Seq<char>| configured_item(kind, p)
            } else {
                |p: Seq<char>| default_item(kind, p)
            },
        ),
{
    let ghost keep = if configured {
        |p: Seq<char>| configured_item(kind, p)
    } else {
        |p: Seq<char>| default_item(kind, p)
    };
    let parts = split(text, ',');
    let ghost ps = views(parts@);
    let mut out: Vec<String> = Vec::new();
    let mut i: usize = 0;
    assert(ps.take(0) =~= Seq::<Seq<char>>::empty());
    assert(views(out@) =~= Seq::<Seq<char>>::empty());
    while i < parts.len()
        invariant
            i <= parts@.len(),
            ps == views(parts@),
            views(out@) == kept_items(ps.take(i as int), keep),
            keep == (if configured {
                |p: Seq<char>| configured_item(kind, p)
            } else {
                |p: Seq<char>| default_item(kind, p)
            }),
        decreases parts.len() - i,
    {
        proof {
            assert(ps.take(i + 1).drop_last() =~= ps.take(i as int));
            assert(ps.take(i + 1).last() == parts@[i as int]@);
        }
        let kept = if configured {
            keep_configured(kind, parts[i].as_str())
        } else {
            keep_default(kind, parts[i].as_str())
        };
        let ghost before = views(out@);
        match kept {
            Some(x) => {
                out.push(x);
                assert(views(out@) =~= before.push(out@[out@.len() - 1]@));
            },
            None => {},
        }
        i = i + 1;
    }
    assert(ps.take(parts.len() as int) =~= ps);
    out
}

/// The list of a kind for a setting (`None` when unset).
pub fn allowed_list(kind: CorsKind, raw: Option<&str>) -> (r: Vec<String>)
    ensures
        views(r@) == cors_list(
            kind,
            opt_str_view(raw),
        ),
{
    let text = match raw {
        Some(t) => t,
        None => default_str(kind),
    };
    let configured = keep_all(kind, text, true);
    if configured.len() > 0 {
        configured
    } else {
        keep_all(kind, default_str(kind), false)
    }
}

/// The allowed origins, from `ALLOWED_ORIGINS`.
pub fn parse_allowed_origins(raw: Option<&str>) -> (r: Vec<String>)
    ensures
        views(r@) == cors_list(
            CorsKind::Origins,
            opt_str_view(raw),
        ),
{
    allowed_list(CorsKind::Origins, raw)
}

/// The allowed methods, from `ALLOWED_METHODS`.
pub fn parse_allowed_methods(raw: Option<&str>) -> (r: Vec<String>)
    ensures
        views(r@) == cors_list(
            CorsKind::Methods,
            opt_str_view(raw),
        ),
{
    allowed_list(CorsKind::Methods, raw)
}

/// The allowed request headers, from `ALLOWED_HEADERS`.
pub fn parse_allowed_headers(raw: Option<&str>) -> (r: Vec<String>)
    ensures
        views(r@) == cors_list(
            CorsKind::Headers,
            opt_str_view(raw),
        ),
{
    allowed_list(CorsKind::Headers, raw)
}

} // verus!

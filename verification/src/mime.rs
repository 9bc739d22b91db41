//! Extracting the parts of a message's MIME source other than its own
//! text (text parts are kept when they are attachments): which parts are
//! saved, under which file names, and how each saved part is described.
//! Parsing the MIME structure is mailparse's work; the files are written by
//! the caller, in the order planned here.

use vstd::prelude::*;
use vstd::utf8::encode_utf8;

use mailparse::DispositionType;

use crate::error::MailError;
use crate::number::{decimal, push_decimal};
use crate::script::{directory_path, with_trailing_slash};
use crate::text::{chars_of, push_chars, push_str, starts_with, string_of};
use crate::reply::same_text;

verus! {

/// How a part asks to be shown (its Content-Disposition type).
#[derive(Debug)]
pub enum Disposition {
    Inline,
    Attachment,
    FormData,
    /// Any other type, lowercased.
    Extension(String),
}

/// One part of a parsed message, with what the extraction reads of it.
#[derive(Debug)]
pub struct MimePart {
    /// The number of subparts; parts without subparts are the leaves.
    pub children: usize,
    /// The lowercased MIME type, such as `image/png`.
    pub mimetype: String,
    /// The Content-Type parameters, by lowercased key, keys ascending.
    pub type_params: Vec<(String, String)>,
    pub disposition: Disposition,
    /// The Content-Disposition parameters, by lowercased key, keys ascending.
    pub disposition_params: Vec<(String, String)>,
    /// The body with its transfer encoding undone, or why that failed.
    pub body: Result<Vec<u8>, String>,
}

/// The model of a `Disposition`.
pub enum DispositionView {
    Inline,
    Attachment,
    FormData,
    Extension(Seq<char>),
}

/// The model of a `MimePart`.
pub struct MimePartView {
    pub children: nat,
    pub mimetype: Seq<char>,
    pub type_params: Seq<(Seq<char>, Seq<char>)>,
    pub disposition: DispositionView,
    pub disposition_params: Seq<(Seq<char>, Seq<char>)>,
    pub body: Result<Seq<u8>, Seq<char>>,
}

/// The model of a list of parameters.
pub open spec fn params_view(p: Seq<(String, String)>) -> Seq<(Seq<char>, Seq<char>)> {
    p.map_values(|kv: (String, String)| (kv.0@, kv.1@))
}

impl View for Disposition {
    type V = DispositionView;

    open spec fn view(&self) -> DispositionView {
        match self {
            Disposition::Inline => DispositionView::Inline,
            Disposition::Attachment => DispositionView::Attachment,
            Disposition::FormData => DispositionView::FormData,
            Disposition::Extension(x) => DispositionView::Extension(x@),
        }
    }
}

impl View for MimePart {
    type V = MimePartView;

    open spec fn view(&self) -> MimePartView {
        MimePartView {
            children: self.children as nat,
            mimetype: self.mimetype@,
            type_params: params_view(self.type_params@),
            disposition: self.disposition@,
            disposition_params: params_view(self.disposition_params@),
            body: match self.body {
                Ok(b) => Ok(b@),
                Err(e) => Err(e@),
            },
        }
    }
}

/// The models of a list of parts.
pub open spec fn parts_view(parts: Seq<MimePart>) -> Seq<MimePartView> {
    parts.map_values(|p: MimePart| p@)
}

/// The parts of the message whose source is `source`, in depth-first
/// pre-order (the message itself first), as mailparse parses it; or the text
/// of its parse error. A function of the bytes alone.
pub uninterp spec fn mime_parts_of(source: Seq<u8>) -> Result<Seq<MimePartView>, Seq<char>>;

/// mailparse's `parse_mail`, then `parts()`; of each part the fields above,
/// its `get_content_disposition()` and its `get_body_raw()`.
#[verifier::external_body]
fn parse_mime_parts(source: &[u8]) -> (r: Result<Vec<MimePart>, String>)
    ensures
        match r {
            Ok(v) => mime_parts_of(source@) == Ok::<Seq<MimePartView>, Seq<char>>(parts_view(v@)),
            Err(m) => mime_parts_of(source@) == Err::<Seq<MimePartView>, Seq<char>>(m@),
        },
{
    let mail = mailparse::parse_mail(source).map_err(|e| e.to_string())?;
    Ok(mail.parts().map(|p| {
        let d = p.get_content_disposition();
        let disposition = match d.disposition {
            DispositionType::Inline => Disposition::Inline,
            DispositionType::Attachment => Disposition::Attachment,
            DispositionType::FormData => Disposition::FormData,
            DispositionType::Extension(x) => Disposition::Extension(x),
        };
        let (mimetype, params) = (p.ctype.mimetype.clone(), p.ctype.params.clone());
        MimePart { children: p.subparts.len(), mimetype, type_params: params.into_iter().collect(),
            disposition, disposition_params: d.params.into_iter().collect(),
            body: p.get_body_raw().map_err(|e| e.to_string()) }
    }).collect())
}

/// A part to be written to a file: where, what, and how it is reported.
#[derive(Debug)]
pub struct SavedPart {
    pub path: String,
    pub body: Vec<u8>,
    /// `path (disposition; type; N bytes)`.
    pub summary: String,
}

/// The model of a `SavedPart`.
pub struct SavedPartView {
    pub path: Seq<char>,
    pub body: Seq<u8>,
    pub summary: Seq<char>,
}

impl View for SavedPart {
    type V = SavedPartView;

    open spec fn view(&self) -> SavedPartView {
        SavedPartView { path: self.path@, body: self.body@, summary: self.summary@ }
    }
}

/// The models of a list of saved parts.
pub open spec fn saved_view(saved: Seq<SavedPart>) -> Seq<SavedPartView> {
    saved.map_values(|p: SavedPart| p@)
}

/// The value of the first parameter named `key`.
pub open spec fn param_value(params: Seq<(Seq<char>, Seq<char>)>, key: Seq<char>) -> Option<
    Seq<char>,
>
    decreases params.len(),
{
    if params.len() == 0 {
        None
    } else if params[0].0 == key {
        Some(params[0].1)
    } else {
        param_value(params.drop_first(), key)
    }
}

/// The file extension given to an unnamed part of this MIME type.
pub open spec fn extension_for(mimetype: Seq<char>) -> Seq<char> {
    if mimetype == "image/png"@ {
        "png"@
    } else if mimetype == "image/jpeg"@ || mimetype == "image/jpg"@ {
        "jpg"@
    } else if mimetype == "image/gif"@ {
        "gif"@
    } else if mimetype == "image/webp"@ {
        "webp"@
    } else if mimetype == "application/pdf"@ {
        "pdf"@
    } else {
        "bin"@
    }
}

/// The file name of a part when `count` parts were saved before it: its
/// disposition's `filename`, else its type's `name`, else `part_N.ext` with
/// N = count + 1.
pub open spec fn part_file_name(p: MimePartView, count: nat) -> Seq<char> {
    match param_value(p.disposition_params, "filename"@) {
        Some(f) => f,
        None => match param_value(p.type_params, "name"@) {
            Some(n) => n,
            None => "part_"@ + decimal(count + 1) + "."@ + extension_for(p.mimetype),
        },
    }
}

/// How a saved part's disposition is reported.
pub open spec fn disposition_label(d: DispositionView) -> Seq<char> {
    match d {
        DispositionView::Inline => "inline"@,
        DispositionView::Attachment => "attachment"@,
        _ => "unknown"@,
    }
}

/// An unnamed part (no `filename` among its disposition parameters, no
/// `name` among its type parameters) is saved as `part_N.ext`, N being one
/// more than the number of parts saved before it: `.png` for image/png,
/// `.jpg` for image/jpeg and image/jpg, `.gif` for image/gif, `.webp` for
/// image/webp, `.pdf` for application/pdf, and `.bin` only for other types.
pub proof fn lemma_unnamed_part_extension(p: MimePartView, count: nat)
    requires
        param_value(p.disposition_params, "filename"@) is None,
        param_value(p.type_params, "name"@) is None,
    ensures
        p.mimetype == "image/png"@ ==> part_file_name(p, count) == "part_"@ + decimal(count + 1)
            + ".png"@,
        p.mimetype == "image/jpeg"@ || p.mimetype == "image/jpg"@ ==> part_file_name(p, count)
            == "part_"@ + decimal(count + 1) + ".jpg"@,
        p.mimetype == "image/gif"@ ==> part_file_name(p, count) == "part_"@ + decimal(count + 1)
            + ".gif"@,
        p.mimetype == "image/webp"@ ==> part_file_name(p, count) == "part_"@ + decimal(count + 1)
            + ".webp"@,
        p.mimetype == "application/pdf"@ ==> part_file_name(p, count) == "part_"@ + decimal(
            count + 1,
        ) + ".pdf"@,
        p.mimetype != "image/png"@ && p.mimetype != "image/jpeg"@ && p.mimetype != "image/jpg"@
            && p.mimetype != "image/gif"@ && p.mimetype != "image/webp"@ && p.mimetype
            != "application/pdf"@ ==> part_file_name(p, count) == "part_"@ + decimal(count + 1)
            + ".bin"@,
{
    reveal_strlit("image/png");
    reveal_strlit("image/jpeg");
    reveal_strlit("image/jpg");
    reveal_strlit("image/gif");
    reveal_strlit("image/webp");
    reveal_strlit("application/pdf");
    assert("image/jpeg"@[6] != "image/png"@[6]);
    assert("image/jpeg"@ != "image/png"@);
    assert("image/jpg"@[6] != "image/png"@[6]);
    assert("image/jpg"@ != "image/png"@);
    assert("image/gif"@[6] != "image/png"@[6]);
    assert("image/gif"@ != "image/png"@);
    assert("image/gif"@[6] != "image/jpeg"@[6]);
    assert("image/gif"@ != "image/jpeg"@);
    assert("image/gif"@[6] != "image/jpg"@[6]);
    assert("image/gif"@ != "image/jpg"@);
    assert("image/webp"@[6] != "image/png"@[6]);
    assert("image/webp"@ != "image/png"@);
    assert("image/webp"@[6] != "image/jpeg"@[6]);
    assert("image/webp"@ != "image/jpeg"@);
    assert("image/webp"@[6] != "image/jpg"@[6]);
    assert("image/webp"@ != "image/jpg"@);
    assert("image/webp"@[6] != "image/gif"@[6]);
    assert("image/webp"@ != "image/gif"@);
    assert("application/pdf"@[0] != "image/png"@[0]);
    assert("application/pdf"@ != "image/png"@);
    assert("application/pdf"@[0] != "image/jpeg"@[0]);
    assert("application/pdf"@ != "image/jpeg"@);
    assert("application/pdf"@[0] != "image/jpg"@[0]);
    assert("application/pdf"@ != "image/jpg"@);
    assert("application/pdf"@[0] != "image/gif"@[0]);
    assert("application/pdf"@ != "image/gif"@);
    assert("application/pdf"@[0] != "image/webp"@[0]);
    assert("application/pdf"@ != "image/webp"@);
    reveal_strlit(".");
    reveal_strlit("png");
    reveal_strlit(".png");
    reveal_strlit("jpg");
    reveal_strlit(".jpg");
    reveal_strlit("gif");
    reveal_strlit(".gif");
    reveal_strlit("webp");
    reveal_strlit(".webp");
    reveal_strlit("pdf");
    reveal_strlit(".pdf");
    reveal_strlit("bin");
    reveal_strlit(".bin");
    assert("."@ + "png"@ == ".png"@);
    assert("."@ + "jpg"@ == ".jpg"@);
    assert("."@ + "gif"@ == ".gif"@);
    assert("."@ + "webp"@ == ".webp"@);
    assert("."@ + "pdf"@ == ".pdf"@);
    assert("."@ + "bin"@ == ".bin"@);
    let head = "part_"@ + decimal(count + 1);
    assert(head + "."@ + extension_for(p.mimetype) == head + ("."@ + extension_for(p.mimetype)));
}

/// What happens to one part.
pub enum PartStep {
    /// Not saved: it has subparts, is text shown inline (the message's own
    /// text), or has an empty body.
    Skip,
    Save(SavedPartView),
    /// Its body could not be decoded; extraction stops with this message.
    Fail(Seq<char>),
}

/// What happens to part `p` when `count` parts were saved before it, with the
/// files going into `dir` (which ends with `/`).
pub open spec fn part_step(p: MimePartView, count: nat, dir: Seq<char>) -> PartStep {
    if p.children > 0 || ("text/"@.is_prefix_of(p.mimetype) && !(p.disposition
        is Attachment)) {
        PartStep::Skip
    } else {
        match p.body {
            Err(e) => PartStep::Fail("Failed to decode part: "@ + e),
            Ok(b) => if b.len() == 0 {
                PartStep::Skip
            } else {
                let path = dir + part_file_name(p, count);
                PartStep::Save(
                    SavedPartView {
                        path: path,
                        body: b,
                        summary: path + " ("@ + disposition_label(p.disposition) + "; "@
                            + p.mimetype + "; "@ + decimal(b.len()) + " bytes)"@,
                    },
                )
            },
        }
    }
}

/// The parts saved, in order, and the message of the failure that stopped
/// the extraction, if one did.
pub open spec fn extraction(parts: Seq<MimePartView>, dir: Seq<char>) -> (
    Seq<SavedPartView>,
    Option<Seq<char>>,
)
    decreases parts.len(),
{
    if parts.len() == 0 {
        (Seq::empty(), None)
    } else {
        let (saved, failure) = extraction(parts.drop_last(), dir);
        if failure is Some {
            (saved, failure)
        } else {
            match part_step(parts.last(), saved.len(), dir) {
                PartStep::Skip => (saved, None),
                PartStep::Save(sp) => (saved.push(sp), None),
                PartStep::Fail(m) => (saved, Some(m)),
            }
        }
    }
}

/// The extraction stops at the first part whose body cannot be decoded:
/// once a failure stops it, later parts change nothing.
pub proof fn lemma_extraction_stops(parts: Seq<MimePartView>, dir: Seq<char>, i: int)
    requires
        0 <= i <= parts.len(),
        extraction(parts.take(i), dir).1 is Some,
    ensures
        extraction(parts, dir) == extraction(parts.take(i), dir),
    decreases parts.len() - i,
{
    if i < parts.len() {
        assert(parts.drop_last().take(i) == parts.take(i));
        lemma_extraction_stops(parts.drop_last(), dir, i);
    } else {
        assert(parts.take(i) == parts);
    }
}

/// The value of the first parameter named `key`.
fn find_param(params: &Vec<(String, String)>, key: &str) -> (r: Option<String>)
    ensures
        match r {
            Some(v) => param_value(params_view(params@), key@) == Some(v@),
            None => param_value(params_view(params@), key@) is None,
        },
{
    let mut i: usize = 0;
    assert(params_view(params@).skip(0) == params_view(params@));
    while i < params.len()
        invariant
            i <= params.len(),
            param_value(params_view(params@), key@) == param_value(
                params_view(params@).skip(i as int),
                key@,
            ),
        decreases params.len() - i,
    {
        let ghost rest = params_view(params@).skip(i as int);
        assert(rest[0] == (params@[i as int].0@, params@[i as int].1@));
        assert(rest.drop_first() == params_view(params@).skip(i + 1));
        if same_text(&chars_of(params[i].0.as_str()), key) {
            return Some(params[i].1.clone());
        }
        i += 1;
    }
    None
}

/// The file extension for an unnamed part.
fn extension(mimetype: &str) -> (r: &'static str)
    ensures
        r@ == extension_for(mimetype@),
{
    let m = chars_of(mimetype);
    if same_text(&m, "image/png") {
        "png"
    } else if same_text(&m, "image/jpeg") || same_text(&m, "image/jpg") {
        "jpg"
    } else if same_text(&m, "image/gif") {
        "gif"
    } else if same_text(&m, "image/webp") {
        "webp"
    } else if same_text(&m, "application/pdf") {
        "pdf"
    } else {
        "bin"
    }
}

/// The file name of a part when `count` parts were saved before it.
fn file_name(p: &MimePart, count: usize) -> (r: Vec<char>)
    requires
        count < usize::MAX,
    ensures
        r@ == part_file_name(p@, count as nat),
{
    match find_param(&p.disposition_params, "filename") {
        Some(f) => chars_of(f.as_str()),
        None => match find_param(&p.type_params, "name") {
            Some(n) => chars_of(n.as_str()),
            None => {
                let mut v = chars_of("part_");
                push_decimal(&mut v, (count + 1) as u128);
                push_str(&mut v, ".");
                push_str(&mut v, extension(p.mimetype.as_str()));
                v
            },
        },
    }
}

/// How a disposition is reported.
fn label(d: &Disposition) -> (r: &'static str)
    ensures
        r@ == disposition_label(d@),
{
    match d {
        Disposition::Inline => "inline",
        Disposition::Attachment => "attachment",
        _ => "unknown",
    }
}

/// What happens to one part, given the number saved before it.
fn step(p: &MimePart, count: usize, dir: &Vec<char>) -> (r: Result<Option<SavedPart>, MailError>)
    requires
        count < usize::MAX,
    ensures
        match part_step(p@, count as nat, dir@) {
            PartStep::Skip => r matches Ok(None),
            PartStep::Save(sp) => r matches Ok(Some(x)) && x@ == sp,
            PartStep::Fail(m) => r matches Err(MailError::AppleScriptError(e)) && e@ == m,
        },
{
    let mimetype = chars_of(p.mimetype.as_str());
    let attached = match p.disposition {
        Disposition::Attachment => true,
        _ => false,
    };
    if p.children > 0 || (starts_with(&mimetype, "text/") && !attached) {
        return Ok(None);
    }
    let name = file_name(p, count);
    match &p.body {
        Err(e) => {
            let mut m = chars_of("Failed to decode part: ");
            push_str(&mut m, e.as_str());
            Err(MailError::AppleScriptError(string_of(&m)))
        },
        Ok(b) => {
            if b.len() == 0 {
                return Ok(None);
            }
            let mut path = dir.clone();
            push_chars(&mut path, &name);
            let mut summary = path.clone();
            push_str(&mut summary, " (");
            push_str(&mut summary, label(&p.disposition));
            push_str(&mut summary, "; ");
            push_chars(&mut summary, &mimetype);
            push_str(&mut summary, "; ");
            push_decimal(&mut summary, b.len() as u128);
            push_str(&mut summary, " bytes)");
            Ok(
                Some(
                    SavedPart {
                        path: string_of(&path),
                        body: vstd::slice::slice_to_vec(b.as_slice()),
                        summary: string_of(&summary),
                    },
                ),
            )
        },
    }
}

/// Plans the extraction of the parts into `save_directory`: the parts to
/// write, in order, and the failure that stopped the extraction, if any.
pub fn extract_parts(parts: &Vec<MimePart>, save_directory: &str) -> (r: (
    Vec<SavedPart>,
    Option<MailError>,
))
    ensures
        saved_view(r.0@) == extraction(parts_view(parts@), with_trailing_slash(save_directory@)).0,
        match extraction(parts_view(parts@), with_trailing_slash(save_directory@)).1 {
            None => r.1 is None,
            Some(m) => r.1 matches Some(MailError::AppleScriptError(e)) && e@ == m,
        },
{
    let dir = directory_path(save_directory);
    let ghost pv = parts_view(parts@);
    let mut saved: Vec<SavedPart> = Vec::new();
    let mut i: usize = 0;
    while i < parts.len()
        invariant
            i <= parts.len(),
            dir@ == with_trailing_slash(save_directory@),
            pv == parts_view(parts@),
            saved@.len() <= i,
            saved_view(saved@) == extraction(pv.take(i as int), dir@).0,
            extraction(pv.take(i as int), dir@).1 is None,
        decreases parts.len() - i,
    {
        assert(pv.take(i + 1).drop_last() == pv.take(i as int));
        assert(pv.take(i + 1).last() == parts@[i as int]@);
        match step(&parts[i], saved.len(), &dir) {
            Ok(None) => {},
            Ok(Some(sp)) => {
                let ghost before = saved@;
                saved.push(sp);
                assert(saved_view(saved@) == saved_view(before).push(sp@));
            },
            Err(e) => {
                proof {
                    lemma_extraction_stops(pv, dir@, i + 1);
                }
                assert(pv.take(parts.len() as int) == pv);
                return (saved, Some(e));
            },
        }
        i += 1;
    }
    assert(pv.take(parts.len() as int) == pv);
    (saved, None)
}

/// Every saved part is written inside the directory (its path starts with
/// the directory, which ends with `/`), is not empty, and is reported under
/// its path; and no more parts are saved than the message has.
pub proof fn lemma_saved_parts_in_directory(parts: Seq<MimePartView>, dir: Seq<char>)
    ensures
        extraction(parts, with_trailing_slash(dir)).0.len() <= parts.len(),
        forall|k: int|
            0 <= k < extraction(parts, with_trailing_slash(dir)).0.len() ==> {
                let sp = #[trigger] extraction(parts, with_trailing_slash(dir)).0[k];
                &&& with_trailing_slash(dir).is_prefix_of(sp.path)
                &&& with_trailing_slash(dir).last() == '/'
                &&& sp.body.len() > 0
                &&& sp.path.is_prefix_of(sp.summary)
            },
    decreases parts.len(),
{
    let d = with_trailing_slash(dir);
    if parts.len() > 0 {
        lemma_saved_parts_in_directory(parts.drop_last(), dir);
        let (saved, failure) = extraction(parts.drop_last(), d);
        if failure is None {
            match part_step(parts.last(), saved.len(), d) {
                PartStep::Save(sp) => {
                    let p = parts.last();
                    assert(sp.path == d + part_file_name(p, saved.len()));
                    assert(d.is_prefix_of(sp.path)) by {
                        assert(sp.path.subrange(0, d.len() as int) == d);
                    }
                    assert(sp.path.is_prefix_of(sp.summary)) by {
                        assert(sp.summary.subrange(0, sp.path.len() as int) == sp.path);
                    }
                    let all = extraction(parts, d).0;
                    assert(all == saved.push(sp));
                    assert forall|k: int| 0 <= k < all.len() implies {
                        let x = #[trigger] all[k];
                        &&& d.is_prefix_of(x.path)
                        &&& d.last() == '/'
                        &&& x.body.len() > 0
                        &&& x.path.is_prefix_of(x.summary)
                    } by {
                        if k < saved.len() {
                            assert(all[k] == saved[k]);
                        }
                    }
                },
                _ => {},
            }
        }
    }
}

/// What extracting the parts of the message whose source is `source` gives:
/// nothing saved and the parse error when mailparse cannot parse it,
/// otherwise the planned extraction of its parts.
pub open spec fn source_extraction(
    source: Seq<char>,
    dir: Seq<char>,
    r: (Vec<SavedPart>, Option<MailError>),
) -> bool {
    match mime_parts_of(encode_utf8(source)) {
        Err(m) => {
            &&& r.0@.len() == 0
            &&& r.1 matches Some(MailError::AppleScriptError(e)) && e@ == "MIME parse error: "@ + m
        },
        Ok(parts) => {
            &&& saved_view(r.0@) == extraction(parts, with_trailing_slash(dir)).0
            &&& match extraction(parts, with_trailing_slash(dir)).1 {
                None => r.1 is None,
                Some(m) => r.1 matches Some(MailError::AppleScriptError(e)) && e@ == m,
            }
        },
    }
}

/// Plans the extraction of the non-text parts of a message's MIME source into
/// `save_directory`.
pub fn parts_to_save(source: &str, save_directory: &str) -> (r: (Vec<SavedPart>, Option<MailError>))
    ensures
        source_extraction(source@, save_directory@, r),
{
    match parse_mime_parts(source.as_bytes()) {
        Err(m) => {
            let mut e = chars_of("MIME parse error: ");
            push_str(&mut e, m.as_str());
            (Vec::new(), Some(MailError::AppleScriptError(string_of(&e))))
        },
        Ok(parts) => extract_parts(&parts, save_directory),
    }
}

} // verus!

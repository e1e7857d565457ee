//! How what the remote service sends is read: the text of a post without its
//! markup, and the kinds that the service names.

use crate::models::media::MediaType;
use crate::models::notification::NotificationType;
use crate::models::post::Visibility;
use crate::text::chars_of;
use crate::text::replace;
use crate::text::replace_all;
use crate::text::same_text;
use crate::text::text_of;
use vstd::prelude::*;

verus! {

/// The characters of `s` that stand outside tags, where `in_tag` says
/// whether `s` begins inside one. A tag opens at `<` and closes at the next
/// `>`; a `>` outside a tag is dropped as well.
pub open spec fn outside_tags(s: Seq<char>, in_tag: bool) -> Seq<char>
    decreases s.len(),
{
    if s.len() == 0 {
        Seq::empty()
    } else if s[0] == '<' {
        outside_tags(s.drop_first(), true)
    } else if s[0] == '>' {
        outside_tags(s.drop_first(), false)
    } else if in_tag {
        outside_tags(s.drop_first(), true)
    } else {
        seq![s[0]] + outside_tags(s.drop_first(), false)
    }
}

/// `s` with the entities that posts use replaced by what they stand for,
/// one kind after the other in this order, and then each written line break
/// by a new line.
pub open spec fn decoded_entities(s: Seq<char>) -> Seq<char> {
    let a = replace_all(s, "&amp;"@, "&"@);
    let b = replace_all(a, "&lt;"@, "<"@);
    let c = replace_all(b, "&gt;"@, ">"@);
    let d = replace_all(c, "&quot;"@, "\""@);
    let e = replace_all(d, "&#39;"@, "'"@);
    let f = replace_all(e, "&nbsp;"@, " "@);
    let g = replace_all(f, "<br>"@, "\n"@);
    let h = replace_all(g, "<br/>"@, "\n"@);
    replace_all(h, "<br />"@, "\n"@)
}

/// The plain text of the marked-up text `html`.
pub open spec fn plain_text(html: Seq<char>) -> Seq<char> {
    decoded_entities(outside_tags(html, false))
}

/// `v` with each occurrence of `from` replaced by `to`.
fn replace_text(v: &Vec<char>, from: &str, to: &str) -> (out: Vec<char>)
    ensures
        out@ == replace_all(v@, from@, to@),
{
    let f = chars_of(from);
    let t = chars_of(to);
    replace(v, &f, &t)
}

/// The plain text of the marked-up text `html`: what stands outside its
/// tags, with the entities decoded.
pub fn strip_html(html: &str) -> (r: String)
    ensures
        r@ == plain_text(html@),
{
    let all = chars_of(html);
    let mut out: Vec<char> = Vec::new();
    let mut in_tag = false;
    let mut i: usize = 0;
    assert(all@.skip(0) =~= all@);
    assert(Seq::<char>::empty() + outside_tags(all@, false) =~= outside_tags(all@, false));
    while i < all.len()
        invariant
            i <= all.len(),
            outside_tags(all@, false) == out@ + outside_tags(all@.skip(i as int), in_tag),
        decreases all.len() - i,
    {
        let c = all[i];
        let ghost rest = all@.skip(i as int);
        let ghost before = out@;
        assert(rest.drop_first() =~= all@.skip(i + 1));
        assert(rest[0] == c);
        if c == '<' {
            in_tag = true;
        } else if c == '>' {
            in_tag = false;
        } else if !in_tag {
            out.push(c);
            assert(before + (seq![c] + outside_tags(rest.drop_first(), false)) =~= out@
                + outside_tags(rest.drop_first(), false));
        }
        i += 1;
    }
    assert(all@.skip(all@.len() as int) =~= Seq::<char>::empty());
    assert(out@ + Seq::<char>::empty() =~= out@);
    let a = replace_text(&out, "&amp;", "&");
    let b = replace_text(&a, "&lt;", "<");
    let c = replace_text(&b, "&gt;", ">");
    let d = replace_text(&c, "&quot;", "\"");
    let e = replace_text(&d, "&#39;", "'");
    let f = replace_text(&e, "&nbsp;", " ");
    let g = replace_text(&f, "<br>", "\n");
    let h = replace_text(&g, "<br/>", "\n");
    let k = replace_text(&h, "<br />", "\n");
    text_of(&k)
}

/// The visibility that the remote service's name `name` stands for. What
/// the service shows on its own instance alone counts as unlisted. `None`
/// for a name that the service does not use.
pub open spec fn remote_visibility(name: Seq<char>) -> Option<Visibility> {
    if name == "public"@ {
        Some(Visibility::Public)
    } else if name == "unlisted"@ {
        Some(Visibility::Unlisted)
    } else if name == "private"@ {
        Some(Visibility::Private)
    } else if name == "direct"@ {
        Some(Visibility::Direct)
    } else if name == "local"@ {
        Some(Visibility::Unlisted)
    } else {
        None
    }
}

/// The visibility that the remote service's name `name` stands for.
pub fn convert_visibility(name: &str) -> (r: Option<Visibility>)
    ensures
        r == remote_visibility(name@),
{
    if same_text(name, "public") {
        Some(Visibility::Public)
    } else if same_text(name, "unlisted") {
        Some(Visibility::Unlisted)
    } else if same_text(name, "private") {
        Some(Visibility::Private)
    } else if same_text(name, "direct") {
        Some(Visibility::Direct)
    } else if same_text(name, "local") {
        Some(Visibility::Unlisted)
    } else {
        None
    }
}

/// The kind of media that the remote service's name `name` stands for; a
/// name that stands for none gives `Unknown`.
pub open spec fn remote_media_type(name: Seq<char>) -> MediaType {
    if name == "image"@ {
        MediaType::Image
    } else if name == "video"@ {
        MediaType::Video
    } else if name == "gifv"@ {
        MediaType::Gifv
    } else if name == "audio"@ {
        MediaType::Audio
    } else {
        MediaType::Unknown
    }
}

/// The kind of media that the remote service's name `name` stands for.
pub fn convert_media_type(name: &str) -> (r: MediaType)
    ensures
        r == remote_media_type(name@),
{
    if same_text(name, "image") {
        MediaType::Image
    } else if same_text(name, "video") {
        MediaType::Video
    } else if same_text(name, "gifv") {
        MediaType::Gifv
    } else if same_text(name, "audio") {
        MediaType::Audio
    } else {
        MediaType::Unknown
    }
}

/// The kind of notification that the remote service's name `name` stands
/// for; a name that stands for none of the kinds that the backend tells
/// apart gives `Unknown`.
pub open spec fn remote_notification_type(name: Seq<char>) -> NotificationType {
    if name == "mention"@ {
        NotificationType::Mention
    } else if name == "reblog"@ {
        NotificationType::Reblog
    } else if name == "favourite"@ {
        NotificationType::Favourite
    } else if name == "follow"@ {
        NotificationType::Follow
    } else if name == "follow_request"@ {
        NotificationType::FollowRequest
    } else if name == "poll_expired"@ {
        NotificationType::Poll
    } else if name == "update"@ {
        NotificationType::Update
    } else if name == "admin.sign_up"@ {
        NotificationType::AdminSignUp
    } else if name == "admin.report"@ {
        NotificationType::AdminReport
    } else {
        NotificationType::Unknown
    }
}

/// The kind of notification that the remote service's name `name` stands
/// for.
pub fn convert_notification_type(name: &str) -> (r: NotificationType)
    ensures
        r == remote_notification_type(name@),
{
    if same_text(name, "mention") {
        NotificationType::Mention
    } else if same_text(name, "reblog") {
        NotificationType::Reblog
    } else if same_text(name, "favourite") {
        NotificationType::Favourite
    } else if same_text(name, "follow") {
        NotificationType::Follow
    } else if same_text(name, "follow_request") {
        NotificationType::FollowRequest
    } else if same_text(name, "poll_expired") {
        NotificationType::Poll
    } else if same_text(name, "update") {
        NotificationType::Update
    } else if same_text(name, "admin.sign_up") {
        NotificationType::AdminSignUp
    } else if same_text(name, "admin.report") {
        NotificationType::AdminReport
    } else {
        NotificationType::Unknown
    }
}

} // verus!

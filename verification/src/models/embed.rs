//! Embeds: metadata fetched from a URL, with the media, author, provider and fields it names.

use vstd::prelude::*;

use crate::ext::{smol_str_chars, smol_str_is_empty, timestamp_unix_epoch};
use crate::util::fixed::FixedStr;
use crate::util::thin_str::ThinString;
use vstd::string::StringSliceAdditionalSpecFns;

verus! {

/// Signature of a media URL for the proxy server.
pub type UrlSignature = FixedStr<27>;

#[derive(Debug, Clone, Copy, PartialEq, Eq, Structural)]
pub enum EmbedType {
    Img,
    Audio,
    Vid,
    Html,
    Link,
    Article,
}

/// Flags of an embed.
#[derive(Debug, Clone, Copy, PartialEq, Eq, Structural, Hash)]
pub struct EmbedFlags {
    bits: i16,
}

impl View for EmbedFlags {
    type V = i16;

    closed spec fn view(&self) -> i16 {
        self.bits
    }
}

/// Union of the bits of every named flag of [`EmbedFlags`].
pub open spec fn embed_all_bits() -> i16 {
    0x3i16
}

#[allow(non_snake_case)]
impl EmbedFlags {
    /// This embed contains spoilered content and should be displayed as such
    pub fn SPOILER() -> (r: EmbedFlags)
        ensures
            r@ == 0x1i16,
    {
        EmbedFlags { bits: 0x1i16 }
    }

    /// This embed may contain content marked as "adult"
    pub fn ADULT() -> (r: EmbedFlags)
        ensures
            r@ == 0x2i16,
    {
        EmbedFlags { bits: 0x2i16 }
    }

    /// The raw bits.
    pub fn bits(&self) -> (r: i16)
        ensures
            r == self@,
    {
        self.bits
    }

    /// No flags.
    pub fn empty() -> (r: EmbedFlags)
        ensures
            r@ == 0,
    {
        EmbedFlags { bits: 0 }
    }

    /// Every named flag.
    pub fn all() -> (r: EmbedFlags)
        ensures
            r@ == embed_all_bits(),
    {
        EmbedFlags { bits: 0x3i16 }
    }

    /// Keeps the named flags of `bits` and drops the other bits.
    pub fn from_bits_truncate(bits: i16) -> (r: EmbedFlags)
        ensures
            r@ == bits & embed_all_bits(),
    {
        EmbedFlags { bits: bits & 0x3i16 }
    }

    /// Keeps `bits` exactly as given.
    pub fn from_bits_retain(bits: i16) -> (r: EmbedFlags)
        ensures
            r@ == bits,
    {
        EmbedFlags { bits }
    }

    /// `Some` exactly when every bit of `bits` names a flag.
    pub fn from_bits(bits: i16) -> (r: Option<EmbedFlags>)
        ensures
            r is Some <==> bits & !embed_all_bits() == 0,
            r matches Some(f) ==> f@ == bits,
    {
        if bits & !0x3i16 == 0 {
            Some(EmbedFlags { bits })
        } else {
            None
        }
    }

    pub fn is_empty(&self) -> (r: bool)
        ensures
            r == (self@ == 0),
    {
        self.bits == 0
    }

    /// Whether every flag of `other` is set in `self`.
    pub fn contains(&self, other: EmbedFlags) -> (r: bool)
        ensures
            r == (self@ & other@ == other@),
    {
        self.bits & other.bits == other.bits
    }

    pub fn union(self, other: EmbedFlags) -> (r: EmbedFlags)
        ensures
            r@ == self@ | other@,
    {
        EmbedFlags { bits: self.bits | other.bits }
    }

    pub fn intersection(self, other: EmbedFlags) -> (r: EmbedFlags)
        ensures
            r@ == self@ & other@,
    {
        EmbedFlags { bits: self.bits & other.bits }
    }

    /// The flags of `self` that are not in `other`.
    pub fn difference(self, other: EmbedFlags) -> (r: EmbedFlags)
        ensures
            r@ == self@ & !other@,
    {
        EmbedFlags { bits: self.bits & !other.bits }
    }

    /// The named flags that are not in `self`.
    pub fn complement(self) -> (r: EmbedFlags)
        ensures
            r@ == !self@ & embed_all_bits(),
    {
        EmbedFlags { bits: !self.bits & 0x3i16 }
    }
}

/// Whether an optional text is absent or empty.
pub open spec fn thin_none_or_empty(s: Option<ThinString>) -> bool {
    match s {
        Some(t) => t@.len() == 0,
        None => true,
    }
}

/// Whether an optional small string is absent or empty.
pub open spec fn smol_none_or_empty(s: Option<smol_str::SmolStr>) -> bool {
    match s {
        Some(t) => smol_str_chars(t).len() == 0,
        None => true,
    }
}

fn thin_is_none_or_empty(s: &Option<ThinString>) -> (r: bool)
    ensures
        r == thin_none_or_empty(*s),
{
    match s {
        Some(value) => value.is_empty(),
        None => true,
    }
}

/// Whether an optional small string is absent or empty.
pub fn is_none_or_empty(s: &Option<smol_str::SmolStr>) -> (r: bool)
    ensures
        r == smol_none_or_empty(*s),
{
    match s {
        Some(value) => smol_str_is_empty(value),
        None => true,
    }
}

/// A media of an embed: a URL, with its description, signature, dimensions and type.
#[derive(Debug, Clone, Default)]
pub struct BasicEmbedMedia {
    pub url: ThinString,
    /// Non-visible description of the embedded media
    pub description: Option<ThinString>,
    /// Cryptographic signature for use with the proxy server
    pub signature: Option<UrlSignature>,
    pub height: Option<i32>,
    pub width: Option<i32>,
    pub mime: Option<smol_str::SmolStr>,
}

/// A media with its alternates.
#[derive(Debug, Clone, Default)]
pub struct EmbedMedia {
    pub media: BasicEmbedMedia,
    pub alts: Vec<BasicEmbedMedia>,
}

/// Whether an optional media is absent or has an empty URL.
pub open spec fn media_is_empty(m: Option<Box<EmbedMedia>>) -> bool {
    match m {
        Some(e) => e.media.url@.len() == 0,
        None => true,
    }
}

/// The media and alternates after normalization: while the media has an empty URL, the last
/// alternate takes its place.
pub open spec fn normalized_media(media: BasicEmbedMedia, alts: Seq<BasicEmbedMedia>) -> (
    BasicEmbedMedia,
    Seq<BasicEmbedMedia>,
)
    decreases alts.len(),
{
    if media.url@.len() != 0 || alts.len() == 0 {
        (media, alts)
    } else {
        normalized_media(alts.last(), alts.drop_last())
    }
}

impl EmbedMedia {
    /// If `this` is is empty, but the alternate field is not empty, set this to the alternate
    pub fn normalize(this: &mut EmbedMedia)
        ensures
            (final(this).media, final(this).alts@) == normalized_media(old(this).media, old(this).alts@),
    {
        let ghost target = normalized_media(this.media, this.alts@);
        loop
            invariant
                normalized_media(this.media, this.alts@) == target,
                target == normalized_media(old(this).media, old(this).alts@),
            decreases this.alts@.len(),
        {
            if !this.url_is_empty() {
                return;
            }
            let ghost before = this.alts@;
            match this.alts.pop() {
                Some(alt) => {
                    assert(this.alts@ == before.drop_last());
                    this.media = alt;
                },
                None => {
                    return;
                },
            }
        }
    }

    fn url_is_empty(&self) -> (r: bool)
        ensures
            r == (self.media.url@.len() == 0),
    {
        self.media.url.is_empty()
    }

    /// Whether the media is absent or has an empty URL.
    pub fn is_empty(this: &Option<Box<EmbedMedia>>) -> (r: bool)
        ensures
            r == media_is_empty(*this),
    {
        match this {
            Some(e) => e.media.url.is_empty(),
            None => true,
        }
    }
}

/// The oEmbed provider of an embed.
#[derive(Debug, Clone, Default)]
pub struct EmbedProvider {
    pub name: Option<smol_str::SmolStr>,
    pub url: Option<ThinString>,
    pub icon: Option<Box<EmbedMedia>>,
}

impl EmbedProvider {
    /// Whether the provider has no name, no URL and no icon.
    pub fn is_none(&self) -> (r: bool)
        ensures
            r == (smol_none_or_empty(self.name) && thin_none_or_empty(self.url) && media_is_empty(self.icon)),
    {
        is_none_or_empty(&self.name) && thin_is_none_or_empty(&self.url) && EmbedMedia::is_empty(&self.icon)
    }
}

/// The author of an embed.
#[derive(Debug, Clone, Default)]
pub struct EmbedAuthor {
    pub name: smol_str::SmolStr,
    pub url: Option<ThinString>,
    pub icon: Option<Box<EmbedMedia>>,
}

/// Whether an optional author is absent, or has no name, no URL and no icon.
pub open spec fn author_is_none(this: Option<EmbedAuthor>) -> bool {
    match this {
        Some(a) => smol_str_chars(a.name).len() == 0 && thin_none_or_empty(a.url) && media_is_empty(a.icon),
        None => true,
    }
}

impl EmbedAuthor {
    /// Whether the author is absent, or has no name, no URL and no icon.
    pub fn is_none(this: &Option<EmbedAuthor>) -> (r: bool)
        ensures
            r == author_is_none(*this),
    {
        match this {
            Some(a) => smol_str_is_empty(&a.name) && thin_is_none_or_empty(&a.url) && EmbedMedia::is_empty(&a.icon),
            None => true,
        }
    }
}

/// A named field of an embed.
#[derive(Debug, Clone, Default)]
pub struct EmbedField {
    pub name: smol_str::SmolStr,
    pub value: smol_str::SmolStr,
    pub img: Option<Box<EmbedMedia>>,
    /// Should use block-formatting
    pub block: bool,
}

impl EmbedField {
    /// Whether the field lacks a name or a value, and has no image.
    pub fn is_empty(&self) -> (r: bool)
        ensures
            r == ((smol_str_chars(self.name).len() == 0 || smol_str_chars(self.value).len() == 0) && media_is_empty(
                self.img,
            )),
    {
        (smol_str_is_empty(&self.name) || smol_str_is_empty(&self.value)) && EmbedMedia::is_empty(&self.img)
    }
}

/// The footer of an embed.
#[derive(Debug, Clone, Default)]
pub struct EmbedFooter {
    pub text: ThinString,
    pub icon: Option<Box<EmbedMedia>>,
}

/// An embed is metadata taken from a given URL by loading said URL, parsing any meta tags, and fetching
/// extra information from oEmbed sources.
#[derive(Debug, Clone)]
pub struct EmbedV1 {
    /// Timestamp when the embed was retreived
    pub ts: iso8601_timestamp::Timestamp,
    /// Embed type
    pub ty: EmbedType,
    pub flags: EmbedFlags,
    /// URL fetched
    pub url: Option<ThinString>,
    /// Canonical URL
    pub canonical: Option<ThinString>,
    pub title: Option<ThinString>,
    /// Description, usually from the Open-Graph API
    pub description: Option<ThinString>,
    /// Accent Color
    pub color: Option<u32>,
    pub author: Option<EmbedAuthor>,
    /// oEmbed Provider
    pub provider: EmbedProvider,
    /// HTML and similar objects
    pub obj: Option<Box<EmbedMedia>>,
    pub img: Option<Box<EmbedMedia>>,
    pub audio: Option<Box<EmbedMedia>>,
    pub video: Option<Box<EmbedMedia>>,
    pub thumb: Option<Box<EmbedMedia>>,
    pub fields: Vec<EmbedField>,
    pub footer: Option<EmbedFooter>,
}

/// Whether the embed has an object, image, audio or video media.
pub open spec fn has_fullsize_media(e: EmbedV1) -> bool {
    !media_is_empty(e.obj) || !media_is_empty(e.img) || !media_is_empty(e.audio) || !media_is_empty(e.video)
}

/// Whether the embed is a link with a URL and nothing else worth showing: no description,
/// color, author, media, thumbnail, field or footer.
pub open spec fn is_plain_link(e: EmbedV1) -> bool {
    &&& e.ty == EmbedType::Link
    &&& e.url is Some
    &&& thin_none_or_empty(e.description)
    &&& e.color is None
    &&& author_is_none(e.author)
    &&& !has_fullsize_media(e)
    &&& media_is_empty(e.thumb)
    &&& e.fields@.len() == 0
    &&& e.footer is None
}

impl EmbedV1 {
    /// Whether the embed has an object, image, audio or video media.
    pub fn has_fullsize_media(&self) -> (r: bool)
        ensures
            r == has_fullsize_media(*self),
    {
        !EmbedMedia::is_empty(&self.obj) || !EmbedMedia::is_empty(&self.img) || !EmbedMedia::is_empty(&self.audio)
            || !EmbedMedia::is_empty(&self.video)
    }

    /// Whether the embed is a plain link; provider, canonical URL and title can be skipped
    /// here, as by themselves they make a very boring embed.
    pub fn is_plain_link(&self) -> (r: bool)
        ensures
            r == is_plain_link(*self),
    {
        if self.ty != EmbedType::Link || self.url.is_none() || !thin_is_none_or_empty(&self.description)
            || self.color.is_some() || !EmbedAuthor::is_none(&self.author) || self.has_fullsize_media()
            || !EmbedMedia::is_empty(&self.thumb) || self.fields.len() != 0 || self.footer.is_some() {
            return false;
        }
        true
    }
}

impl Default for EmbedV1 {
    fn default() -> (r: EmbedV1)
        ensures
            r.ty == EmbedType::Link,
            r.flags@ == 0,
            r.url is None,
            r.canonical is None,
            r.title is None,
            r.description is None,
            r.color is None,
            r.author is None,
            r.provider.name is None,
            r.provider.url is None,
            r.provider.icon is None,
            r.obj is None,
            r.img is None,
            r.audio is None,
            r.video is None,
            r.thumb is None,
            r.fields@.len() == 0,
            r.footer is None,
    {
        EmbedV1 {
            ts: timestamp_unix_epoch(),
            ty: EmbedType::Link,
            flags: EmbedFlags::empty(),
            url: None,
            canonical: None,
            title: None,
            description: None,
            color: None,
            author: None,
            provider: EmbedProvider { name: None, url: None, icon: None },
            img: None,
            audio: None,
            video: None,
            thumb: None,
            obj: None,
            fields: Vec::new(),
            footer: None,
        }
    }
}

/// An embed, by version.
#[derive(Debug, Clone)]
pub enum Embed {
    V1(EmbedV1),
}

impl Embed {
    /// The URL of the embed, if it has one.
    pub fn url(&self) -> (r: Option<&str>)
        ensures
            match *self {
                Embed::V1(e) => match e.url {
                    Some(u) => r matches Some(s) && s.spec_bytes() == u@,
                    None => r is None,
                },
            },
    {
        match self {
            Embed::V1(embed) => match &embed.url {
                Some(u) => Some(u.as_str()),
                None => None,
            },
        }
    }
}

/// Whether the visitor may be called on any media.
pub open spec fn accepts_any_media<F: FnMut(&mut EmbedMedia)>(f: F) -> bool {
    forall|m: &mut EmbedMedia| #[trigger] call_requires(f, (m,))
}

/// Whether the visitor of basic media may be called on any basic media.
pub open spec fn accepts_any_basic<F: FnMut(&mut BasicEmbedMedia)>(f: F) -> bool {
    forall|m: &mut BasicEmbedMedia| #[trigger] call_requires(f, (m,))
}

/// Whether the two embeds differ at most inside their media: every other field is the same,
/// and each media slot is present in both or in neither.
pub open spec fn same_but_media(a: EmbedV1, b: EmbedV1) -> bool {
    &&& a.ts == b.ts
    &&& a.ty == b.ty
    &&& a.flags == b.flags
    &&& a.url == b.url
    &&& a.canonical == b.canonical
    &&& a.title == b.title
    &&& a.description == b.description
    &&& a.color == b.color
    &&& a.obj is Some <==> b.obj is Some
    &&& a.img is Some <==> b.img is Some
    &&& a.audio is Some <==> b.audio is Some
    &&& a.video is Some <==> b.video is Some
    &&& a.thumb is Some <==> b.thumb is Some
    &&& a.provider.name == b.provider.name
    &&& a.provider.url == b.provider.url
    &&& a.provider.icon is Some <==> b.provider.icon is Some
    &&& a.footer is Some <==> b.footer is Some
    &&& a.footer matches Some(fa) ==> (b.footer matches Some(fb) && fa.text == fb.text && (fa.icon is Some
        <==> fb.icon is Some))
    &&& a.author is Some <==> b.author is Some
    &&& a.author matches Some(aa) ==> (b.author matches Some(ab) && aa.name == ab.name && aa.url == ab.url && (
    aa.icon is Some <==> ab.icon is Some))
    &&& a.fields@.len() == b.fields@.len()
    &&& forall|i: int|
        0 <= i < a.fields@.len() ==> (#[trigger] a.fields@[i]).name == b.fields@[i].name && a.fields@[i].value
            == b.fields@[i].value && a.fields@[i].block == b.fields@[i].block && (a.fields@[i].img is Some
            <==> b.fields@[i].img is Some)
}

/// Calls the visitor on the media, if there is one.
fn visit_opt<F: FnMut(&mut EmbedMedia)>(value: &mut Option<Box<EmbedMedia>>, f: &mut F)
    requires
        accepts_any_media(*old(f)),
    ensures
        (*old(value)) is None ==> (*final(value)) is None,
        (*old(value)) matches Some(b) ==> (*final(value)) matches Some(a) && exists|m: &mut EmbedMedia|
            #[trigger] call_ensures(*old(f), (m,), ()) && mut_ref_current(m) == *b && mut_ref_future(m) == *a,
        *final(f) == *old(f),
{
    match value {
        Some(media) => {
            let m: &mut EmbedMedia = &mut **media;
            f(m);
        },
        None => {},
    }
}

impl EmbedV1 {
    /// Calls the visitor on each media of the embed, full media first: object, image, audio,
    /// video, thumbnail, provider icon, footer icon, author icon, then the image of each field.
    /// Each media present becomes what one call of the visitor makes of it; the rest of the
    /// embed is left as it was.
    pub fn visit_full_media<F: FnMut(&mut EmbedMedia)>(&mut self, f: F)
        requires
            accepts_any_media(f),
        ensures
            same_but_media(*old(self), *final(self)),
            old(self).obj matches Some(b) ==> final(self).obj matches Some(a) && exists|m: &mut EmbedMedia|
                #[trigger] call_ensures(f, (m,), ()) && mut_ref_current(m) == *b && mut_ref_future(m) == *a,
            old(self).img matches Some(b) ==> final(self).img matches Some(a) && exists|m: &mut EmbedMedia|
                #[trigger] call_ensures(f, (m,), ()) && mut_ref_current(m) == *b && mut_ref_future(m) == *a,
            old(self).audio matches Some(b) ==> final(self).audio matches Some(a) && exists|m: &mut EmbedMedia|
                #[trigger] call_ensures(f, (m,), ()) && mut_ref_current(m) == *b && mut_ref_future(m) == *a,
            old(self).video matches Some(b) ==> final(self).video matches Some(a) && exists|m: &mut EmbedMedia|
                #[trigger] call_ensures(f, (m,), ()) && mut_ref_current(m) == *b && mut_ref_future(m) == *a,
            old(self).thumb matches Some(b) ==> final(self).thumb matches Some(a) && exists|m: &mut EmbedMedia|
                #[trigger] call_ensures(f, (m,), ()) && mut_ref_current(m) == *b && mut_ref_future(m) == *a,
            old(self).provider.icon matches Some(b) ==> final(self).provider.icon matches Some(a) && exists|
                m: &mut EmbedMedia,
            | #[trigger] call_ensures(f, (m,), ()) && mut_ref_current(m) == *b && mut_ref_future(m) == *a,
            old(self).footer matches Some(fo) ==> final(self).footer matches Some(fa) && (fo.icon matches Some(b)
                ==> fa.icon matches Some(a) && exists|m: &mut EmbedMedia|
                #[trigger] call_ensures(f, (m,), ()) && mut_ref_current(m) == *b && mut_ref_future(m) == *a),
            old(self).author matches Some(ao) ==> final(self).author matches Some(aa) && (ao.icon matches Some(b)
                ==> aa.icon matches Some(a) && exists|m: &mut EmbedMedia|
                #[trigger] call_ensures(f, (m,), ()) && mut_ref_current(m) == *b && mut_ref_future(m) == *a),
            forall|i: int|
                #![trigger old(self).fields@[i]]
                0 <= i < old(self).fields@.len() ==> (old(self).fields@[i].img matches Some(b)
                    ==> final(self).fields@[i].img matches Some(a) && exists|m: &mut EmbedMedia|
                    #[trigger] call_ensures(f, (m,), ()) && mut_ref_current(m) == *b && mut_ref_future(m) == *a),
    {
        let mut f = f;
        visit_opt(&mut self.obj, &mut f);
        visit_opt(&mut self.img, &mut f);
        visit_opt(&mut self.audio, &mut f);
        visit_opt(&mut self.video, &mut f);
        visit_opt(&mut self.thumb, &mut f);
        visit_opt(&mut self.provider.icon, &mut f);
        match &mut self.footer {
            Some(footer) => visit_opt(&mut footer.icon, &mut f),
            None => {},
        }
        match &mut self.author {
            Some(author) => visit_opt(&mut author.icon, &mut f),
            None => {},
        }
        let mut fields: Vec<EmbedField> = Vec::new();
        std::mem::swap(&mut fields, &mut self.fields);
        let ghost fields0 = fields@;
        let ghost f0 = f;
        let mut i: usize = 0;
        while i < fields.len()
            invariant
                accepts_any_media(f),
                f == f0,
                i <= fields@.len(),
                fields@.len() == fields0.len(),
                forall|j: int|
                    0 <= j < fields0.len() ==> (#[trigger] fields0[j]).name == fields@[j].name && fields0[j].value
                        == fields@[j].value && fields0[j].block == fields@[j].block && (fields0[j].img is Some
                        <==> fields@[j].img is Some),
                forall|j: int|
                    #![trigger fields0[j]]
                    i <= j < fields0.len() ==> fields@[j].img == fields0[j].img,
                forall|j: int|
                    #![trigger fields0[j]]
                    0 <= j < i ==> (fields0[j].img matches Some(b) ==> fields@[j].img matches Some(a) && exists|
                        m: &mut EmbedMedia,
                    | #[trigger] call_ensures(f0, (m,), ()) && mut_ref_current(m) == *b && mut_ref_future(m) == *a),
            decreases fields@.len() - i,
        {
            visit_opt(&mut fields[i].img, &mut f);
            i += 1;
        }
        self.fields = fields;
    }
}

/// Visiting each basic media of a value, to change them in place.
pub trait VisitMedia {
    /// Calls the visitor on each basic media, in order.
    fn visit_media<F: FnMut(&mut BasicEmbedMedia)>(&mut self, f: F)
        requires
            accepts_any_basic(f),
    ;
}

/// Calls the visitor on the media, then on each of its alternates: each becomes what one call
/// of the visitor makes of it.
fn visit_basic_media<F: FnMut(&mut BasicEmbedMedia)>(m: &mut EmbedMedia, f: &mut F)
    requires
        accepts_any_basic(*old(f)),
    ensures
        exists|r: &mut BasicEmbedMedia|
            #[trigger] call_ensures(*old(f), (r,), ()) && mut_ref_current(r) == old(m).media && mut_ref_future(r)
                == final(m).media,
        final(m).alts@.len() == old(m).alts@.len(),
        forall|k: int|
            #![trigger old(m).alts@[k]]
            0 <= k < old(m).alts@.len() ==> exists|r: &mut BasicEmbedMedia|
                #[trigger] call_ensures(*old(f), (r,), ()) && mut_ref_current(r) == old(m).alts@[k]
                    && mut_ref_future(r) == final(m).alts@[k],
        *final(f) == *old(f),
{
    f(&mut m.media);
    let mut alts: Vec<BasicEmbedMedia> = Vec::new();
    std::mem::swap(&mut alts, &mut m.alts);
    let ghost alts0 = alts@;
    let ghost f0 = *f;
    let mut i: usize = 0;
    while i < alts.len()
        invariant
            accepts_any_basic(*f),
            *f == f0,
            i <= alts@.len(),
            alts@.len() == alts0.len(),
            forall|k: int| #![trigger alts0[k]] i <= k < alts0.len() ==> alts@[k] == alts0[k],
            forall|k: int|
                #![trigger alts0[k]]
                0 <= k < i ==> exists|r: &mut BasicEmbedMedia|
                    #[trigger] call_ensures(f0, (r,), ()) && mut_ref_current(r) == alts0[k] && mut_ref_future(r)
                        == alts@[k],
        decreases alts@.len() - i,
    {
        f(&mut alts[i]);
        i += 1;
    }
    m.alts = alts;
}

/// Calls the visitor on the basic media of the media, if there is one.
fn visit_basic_opt<F: FnMut(&mut BasicEmbedMedia)>(value: &mut Option<Box<EmbedMedia>>, f: &mut F)
    requires
        accepts_any_basic(*old(f)),
    ensures
        (*old(value)) is None ==> (*final(value)) is None,
        (*old(value)) matches Some(b) ==> (*final(value)) matches Some(a) && (exists|r: &mut BasicEmbedMedia|
                #[trigger] call_ensures(*old(f), (r,), ()) && mut_ref_current(r) == b.media && mut_ref_future(r)
                    == a.media) && a.alts@.len() == b.alts@.len() && (forall|k: int|
                #![trigger b.alts@[k]]
                0 <= k < b.alts@.len() ==> exists|r: &mut BasicEmbedMedia|
                    #[trigger] call_ensures(*old(f), (r,), ()) && mut_ref_current(r) == b.alts@[k]
                        && mut_ref_future(r) == a.alts@[k]),
        *final(f) == *old(f),
{
    match value {
        Some(media) => visit_basic_media(&mut **media, f),
        None => {},
    }
}

impl VisitMedia for [BasicEmbedMedia] {
    fn visit_media<F: FnMut(&mut BasicEmbedMedia)>(&mut self, f: F)
        ensures
            final(self)@.len() == old(self)@.len(),
    {
        let mut f = f;
        let mut i: usize = 0;
        while i < self.len()
            invariant
                accepts_any_basic(f),
                self@.len() == old(self)@.len(),
            decreases self.len() - i,
        {
            f(&mut self[i]);
            i += 1;
        }
    }
}

impl<T: VisitMedia> VisitMedia for Option<T> {
    fn visit_media<F: FnMut(&mut BasicEmbedMedia)>(&mut self, f: F)
        ensures
            (*old(self)) is Some <==> (*final(self)) is Some,
    {
        match self {
            Some(media) => media.visit_media(f),
            None => {},
        }
    }
}

impl VisitMedia for EmbedMedia {
    fn visit_media<F: FnMut(&mut BasicEmbedMedia)>(&mut self, f: F)
        ensures
            (exists|r: &mut BasicEmbedMedia|
                #[trigger] call_ensures(f, (r,), ()) && mut_ref_current(r) == old(self).media && mut_ref_future(r)
                    == final(self).media) && final(self).alts@.len() == old(self).alts@.len() && (forall|k: int|
                #![trigger old(self).alts@[k]]
                0 <= k < old(self).alts@.len() ==> exists|r: &mut BasicEmbedMedia|
                    #[trigger] call_ensures(f, (r,), ()) && mut_ref_current(r) == old(self).alts@[k]
                        && mut_ref_future(r) == final(self).alts@[k]),
    {
        let mut f = f;
        visit_basic_media(self, &mut f);
    }
}

impl VisitMedia for Box<EmbedMedia> {
    fn visit_media<F: FnMut(&mut BasicEmbedMedia)>(&mut self, f: F)
        ensures
            (exists|r: &mut BasicEmbedMedia|
                #[trigger] call_ensures(f, (r,), ()) && mut_ref_current(r) == old(self).media && mut_ref_future(r)
                    == final(self).media) && final(self).alts@.len() == old(self).alts@.len() && (forall|k: int|
                #![trigger old(self).alts@[k]]
                0 <= k < old(self).alts@.len() ==> exists|r: &mut BasicEmbedMedia|
                    #[trigger] call_ensures(f, (r,), ()) && mut_ref_current(r) == old(self).alts@[k]
                        && mut_ref_future(r) == final(self).alts@[k]),
    {
        let mut f = f;
        visit_basic_media(&mut **self, &mut f);
    }
}

impl VisitMedia for EmbedV1 {
    /// Visit each [`EmbedMedia`] to mutate them (such as to generate the proxy signature)
    fn visit_media<F: FnMut(&mut BasicEmbedMedia)>(&mut self, f: F)
        ensures
            same_but_media(*old(self), *final(self)),
            old(self).obj matches Some(b) ==> final(self).obj matches Some(a) && (exists|r: &mut BasicEmbedMedia|
                    #[trigger] call_ensures(f, (r,), ()) && mut_ref_current(r) == b.media && mut_ref_future(r)
                        == a.media) && a.alts@.len() == b.alts@.len() && (forall|k: int|
                    #![trigger b.alts@[k]]
                    0 <= k < b.alts@.len() ==> exists|r: &mut BasicEmbedMedia|
                        #[trigger] call_ensures(f, (r,), ()) && mut_ref_current(r) == b.alts@[k]
                            && mut_ref_future(r) == a.alts@[k]),
            old(self).img matches Some(b) ==> final(self).img matches Some(a) && (exists|r: &mut BasicEmbedMedia|
                    #[trigger] call_ensures(f, (r,), ()) && mut_ref_current(r) == b.media && mut_ref_future(r)
                        == a.media) && a.alts@.len() == b.alts@.len() && (forall|k: int|
                    #![trigger b.alts@[k]]
                    0 <= k < b.alts@.len() ==> exists|r: &mut BasicEmbedMedia|
                        #[trigger] call_ensures(f, (r,), ()) && mut_ref_current(r) == b.alts@[k]
                            && mut_ref_future(r) == a.alts@[k]),
            old(self).audio matches Some(b) ==> final(self).audio matches Some(a) && (exists|r: &mut BasicEmbedMedia|
                    #[trigger] call_ensures(f, (r,), ()) && mut_ref_current(r) == b.media && mut_ref_future(r)
                        == a.media) && a.alts@.len() == b.alts@.len() && (forall|k: int|
                    #![trigger b.alts@[k]]
                    0 <= k < b.alts@.len() ==> exists|r: &mut BasicEmbedMedia|
                        #[trigger] call_ensures(f, (r,), ()) && mut_ref_current(r) == b.alts@[k]
                            && mut_ref_future(r) == a.alts@[k]),
            old(self).video matches Some(b) ==> final(self).video matches Some(a) && (exists|r: &mut BasicEmbedMedia|
                    #[trigger] call_ensures(f, (r,), ()) && mut_ref_current(r) == b.media && mut_ref_future(r)
                        == a.media) && a.alts@.len() == b.alts@.len() && (forall|k: int|
                    #![trigger b.alts@[k]]
                    0 <= k < b.alts@.len() ==> exists|r: &mut BasicEmbedMedia|
                        #[trigger] call_ensures(f, (r,), ()) && mut_ref_current(r) == b.alts@[k]
                            && mut_ref_future(r) == a.alts@[k]),
            old(self).thumb matches Some(b) ==> final(self).thumb matches Some(a) && (exists|r: &mut BasicEmbedMedia|
                    #[trigger] call_ensures(f, (r,), ()) && mut_ref_current(r) == b.media && mut_ref_future(r)
                        == a.media) && a.alts@.len() == b.alts@.len() && (forall|k: int|
                    #![trigger b.alts@[k]]
                    0 <= k < b.alts@.len() ==> exists|r: &mut BasicEmbedMedia|
                        #[trigger] call_ensures(f, (r,), ()) && mut_ref_current(r) == b.alts@[k]
                            && mut_ref_future(r) == a.alts@[k]),
            old(self).provider.icon matches Some(b) ==> final(self).provider.icon matches Some(a) && (exists|r: &mut BasicEmbedMedia|
                    #[trigger] call_ensures(f, (r,), ()) && mut_ref_current(r) == b.media && mut_ref_future(r)
                        == a.media) && a.alts@.len() == b.alts@.len() && (forall|k: int|
                    #![trigger b.alts@[k]]
                    0 <= k < b.alts@.len() ==> exists|r: &mut BasicEmbedMedia|
                        #[trigger] call_ensures(f, (r,), ()) && mut_ref_current(r) == b.alts@[k]
                            && mut_ref_future(r) == a.alts@[k]),
            old(self).footer matches Some(fo) ==> final(self).footer matches Some(fa) && (fo.icon matches Some(b)
                ==> fa.icon matches Some(a) && (exists|r: &mut BasicEmbedMedia|
                        #[trigger] call_ensures(f, (r,), ()) && mut_ref_current(r) == b.media && mut_ref_future(r)
                            == a.media) && a.alts@.len() == b.alts@.len() && (forall|k: int|
                        #![trigger b.alts@[k]]
                        0 <= k < b.alts@.len() ==> exists|r: &mut BasicEmbedMedia|
                            #[trigger] call_ensures(f, (r,), ()) && mut_ref_current(r) == b.alts@[k]
                                && mut_ref_future(r) == a.alts@[k])),
            old(self).author matches Some(ao) ==> final(self).author matches Some(aa) && (ao.icon matches Some(b)
                ==> aa.icon matches Some(a) && (exists|r: &mut BasicEmbedMedia|
                        #[trigger] call_ensures(f, (r,), ()) && mut_ref_current(r) == b.media && mut_ref_future(r)
                            == a.media) && a.alts@.len() == b.alts@.len() && (forall|k: int|
                        #![trigger b.alts@[k]]
                        0 <= k < b.alts@.len() ==> exists|r: &mut BasicEmbedMedia|
                            #[trigger] call_ensures(f, (r,), ()) && mut_ref_current(r) == b.alts@[k]
                                && mut_ref_future(r) == a.alts@[k])),
            forall|i: int|
                #![trigger old(self).fields@[i]]
                0 <= i < old(self).fields@.len() ==> (old(self).fields@[i].img matches Some(b)
                    ==> final(self).fields@[i].img matches Some(a) && (exists|r: &mut BasicEmbedMedia|
                            #[trigger] call_ensures(f, (r,), ()) && mut_ref_current(r) == b.media && mut_ref_future(r)
                                == a.media) && a.alts@.len() == b.alts@.len() && (forall|k: int|
                            #![trigger b.alts@[k]]
                            0 <= k < b.alts@.len() ==> exists|r: &mut BasicEmbedMedia|
                                #[trigger] call_ensures(f, (r,), ()) && mut_ref_current(r) == b.alts@[k]
                                    && mut_ref_future(r) == a.alts@[k])),
    {
        let mut f = f;
        visit_basic_opt(&mut self.obj, &mut f);
        visit_basic_opt(&mut self.img, &mut f);
        visit_basic_opt(&mut self.audio, &mut f);
        visit_basic_opt(&mut self.video, &mut f);
        visit_basic_opt(&mut self.thumb, &mut f);
        visit_basic_opt(&mut self.provider.icon, &mut f);
        match &mut self.footer {
            Some(footer) => visit_basic_opt(&mut footer.icon, &mut f),
            None => {},
        }
        match &mut self.author {
            Some(author) => visit_basic_opt(&mut author.icon, &mut f),
            None => {},
        }
        let mut fields: Vec<EmbedField> = Vec::new();
        std::mem::swap(&mut fields, &mut self.fields);
        let ghost fields0 = fields@;
        let ghost f0 = f;
        let mut i: usize = 0;
        while i < fields.len()
            invariant
                accepts_any_basic(f),
                f == f0,
                i <= fields@.len(),
                fields@.len() == fields0.len(),
                forall|j: int|
                    0 <= j < fields0.len() ==> (#[trigger] fields0[j]).name == fields@[j].name && fields0[j].value
                        == fields@[j].value && fields0[j].block == fields@[j].block && (fields0[j].img is Some
                        <==> fields@[j].img is Some),
                forall|j: int|
                    #![trigger fields0[j]]
                    i <= j < fields0.len() ==> fields@[j].img == fields0[j].img,
                forall|j: int|
                    #![trigger fields0[j]]
                    0 <= j < i ==> (fields0[j].img matches Some(b) ==> fields@[j].img matches Some(a) && (exists|r: &mut BasicEmbedMedia|
                        #[trigger] call_ensures(f0, (r,), ()) && mut_ref_current(r) == b.media && mut_ref_future(r)
                            == a.media) && a.alts@.len() == b.alts@.len() && (forall|k: int|
                        #![trigger b.alts@[k]]
                        0 <= k < b.alts@.len() ==> exists|r: &mut BasicEmbedMedia|
                            #[trigger] call_ensures(f0, (r,), ()) && mut_ref_current(r) == b.alts@[k]
                                && mut_ref_future(r) == a.alts@[k])),
            decreases fields@.len() - i,
        {
            visit_basic_opt(&mut fields[i].img, &mut f);
            i += 1;
        }
        self.fields = fields;
    }
}

/// Builder methods for boxed media.
pub trait BoxedEmbedMediaExt: Sized {
    fn read(self) -> EmbedMedia;

    fn with_url(self, url: ThinString) -> Self;

    fn with_dims(self, width: i32, height: i32) -> Self;

    fn with_mime(self, mime: smol_str::SmolStr) -> Self;

    fn with_description(self, description: ThinString) -> Self;
}

impl BoxedEmbedMediaExt for Box<EmbedMedia> {
    /// The media itself.
    fn read(self) -> (r: EmbedMedia)
        ensures
            r == *self,
    {
        *self
    }

    /// The media with its URL replaced.
    fn with_url(self, url: ThinString) -> (r: Box<EmbedMedia>)
        ensures
            *r == (EmbedMedia { media: BasicEmbedMedia { url, ..self.media }, ..*self }),
    {
        let mut this = self;
        this.media.url = url;
        this
    }

    /// The media with its width and height set.
    fn with_dims(self, width: i32, height: i32) -> (r: Box<EmbedMedia>)
        ensures
            *r == (EmbedMedia {
                media: BasicEmbedMedia { width: Some(width), height: Some(height), ..self.media },
                ..*self
            }),
    {
        let mut this = self;
        this.media.width = Some(width);
        this.media.height = Some(height);
        this
    }

    /// The media with its MIME type set.
    fn with_mime(self, mime: smol_str::SmolStr) -> (r: Box<EmbedMedia>)
        ensures
            *r == (EmbedMedia { media: BasicEmbedMedia { mime: Some(mime), ..self.media }, ..*self }),
    {
        let mut this = self;
        this.media.mime = Some(mime);
        this
    }

    /// The media with its description set.
    fn with_description(self, description: ThinString) -> (r: Box<EmbedMedia>)
        ensures
            *r == (EmbedMedia {
                media: BasicEmbedMedia { description: Some(description), ..self.media },
                ..*self
            }),
    {
        let mut this = self;
        this.media.description = Some(description);
        this
    }
}

impl core::ops::Deref for EmbedMedia {
    type Target = BasicEmbedMedia;

    fn deref(&self) -> (r: &BasicEmbedMedia)
        ensures
            *r == self.media,
    {
        &self.media
    }
}

} // verus!

use client_sdk::models::embed::{
    BasicEmbedMedia, BoxedEmbedMediaExt, EmbedAuthor, EmbedField, EmbedMedia, EmbedType, EmbedV1, VisitMedia,
};
use client_sdk::util::thin_str::ThinString;

fn media(url: &str) -> Box<EmbedMedia> {
    Box::new(EmbedMedia {
        media: BasicEmbedMedia { url: ThinString::from(url), ..Default::default() },
        alts: vec![BasicEmbedMedia { url: ThinString::from("alt"), ..Default::default() }],
    })
}

#[test]
fn visit_full_media_in_order() {
    let mut e = EmbedV1::default();
    e.img = Some(media("img"));
    e.thumb = Some(media("thumb"));
    e.author = Some(EmbedAuthor { icon: Some(media("author")), ..Default::default() });
    e.fields.push(EmbedField { img: Some(media("field")), ..Default::default() });
    let mut seen = Vec::new();
    e.visit_full_media(|m: &mut EmbedMedia| {
        seen.push(m.media.url.as_str().to_string());
        m.media.width = Some(1);
    });
    assert_eq!(seen, vec!["img", "thumb", "author", "field"]);
    assert_eq!(e.img.as_ref().unwrap().media.width, Some(1));
    assert!(e.obj.is_none());
}

#[test]
fn visit_media_reaches_alternates() {
    let mut e = EmbedV1::default();
    e.video = Some(media("video"));
    let mut count = 0;
    e.visit_media(|m: &mut BasicEmbedMedia| {
        count += 1;
        m.height = Some(2);
    });
    assert_eq!(count, 2);
    let v = e.video.as_ref().unwrap();
    assert_eq!(v.media.height, Some(2));
    assert_eq!(v.alts[0].height, Some(2));
}

#[test]
fn boxed_media_builders() {
    let m = media("a")
        .with_url(ThinString::from("b"))
        .with_dims(10, 20)
        .with_mime(smol_str::SmolStr::new("image/png"))
        .with_description(ThinString::from("desc"))
        .read();
    assert_eq!(m.media.url.as_str(), "b");
    assert_eq!(m.media.width, Some(10));
    assert_eq!(m.media.height, Some(20));
    assert_eq!(m.media.mime.as_deref(), Some("image/png"));
    assert_eq!(m.media.description.as_ref().unwrap().as_str(), "desc");
    assert_eq!(m.alts.len(), 1);
}

#[test]
fn normalize_takes_last_alternate() {
    let mut m = EmbedMedia {
        media: BasicEmbedMedia::default(),
        alts: vec![
            BasicEmbedMedia { url: ThinString::from("first"), ..Default::default() },
            BasicEmbedMedia { url: ThinString::from("second"), ..Default::default() },
        ],
    };
    EmbedMedia::normalize(&mut m);
    assert_eq!(m.media.url.as_str(), "second");
    assert_eq!(m.alts.len(), 1);
}

#[test]
fn plain_links() {
    let mut e = EmbedV1::default();
    e.ty = EmbedType::Link;
    e.url = Some(ThinString::from("https://example.com"));
    assert!(e.is_plain_link());
    assert!(!e.has_fullsize_media());
    e.img = Some(media("img"));
    assert!(e.has_fullsize_media());
    assert!(!e.is_plain_link());
}

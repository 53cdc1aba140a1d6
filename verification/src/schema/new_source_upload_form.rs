use vstd::prelude::*;

use crate::text::dec_digits;
use crate::text::join_comma;
use crate::text::joined_comma;
use crate::text::pairs_view;
use crate::text::strings_view;
use crate::text::u64_to_dec;

verus! {

/// Artist credit entry for new source uploads.
#[derive(Clone, Debug)]
pub struct NewSourceUploadArtist {
    /// Artist name.
    pub name: String,
    /// Artist role/importance index in the upload form.
    pub role: u8,
}

/// Edition metadata for new source uploads.
#[derive(Clone, Debug)]
pub struct NewSourceUploadEdition {
    /// Whether release-specific edition metadata is unknown.
    pub unknown_release: bool,
    /// Optional explicit remaster flag.
    pub remaster: Option<bool>,
    /// Edition year.
    pub year: u16,
    /// Edition title.
    pub title: String,
    /// Edition record label.
    pub record_label: String,
    /// Edition catalogue number.
    pub catalogue_number: String,
    /// Audio format.
    pub format: String,
    /// Audio bitrate/encoding.
    pub bitrate: String,
}

/// Form data for uploading a new source torrent and creating a new group.
#[derive(Clone, Debug)]
pub struct NewSourceUploadForm {
    /// Path to the torrent file to upload.
    pub path: String,
    /// ID number of the category.
    pub category_id: u8,
    /// Group title.
    pub title: String,
    /// Original release year.
    pub year: u16,
    /// Release type index.
    pub release_type: u8,
    /// Media type.
    pub media: String,
    /// Tags for the release.
    pub tags: Vec<String>,
    /// Album description (group description).
    pub album_desc: String,
    /// Upload description (torrent description).
    pub release_desc: String,
    /// Optional request ID this upload is filling.
    pub request_id: Option<u32>,
    /// Optional image URL.
    pub image: Option<String>,
    /// Edition metadata.
    pub edition: NewSourceUploadEdition,
    /// Artist credits.
    pub artists: Vec<NewSourceUploadArtist>,
}

/// The two text fields each artist credit contributes, in artist order.
pub open spec fn artist_fields(artists: Seq<NewSourceUploadArtist>) -> Seq<(Seq<char>, Seq<char>)>
    decreases artists.len(),
{
    if artists.len() == 0 {
        Seq::empty()
    } else {
        artist_fields(artists.drop_last()) + seq![
            ("artists[]"@, artists.last().name@),
            ("importance[]"@, dec_digits(artists.last().role as nat)),
        ]
    }
}

impl NewSourceUploadForm {
    /// The text fields present on every upload, in order.
    pub open spec fn base_fields(self) -> Seq<(Seq<char>, Seq<char>)> {
        seq![
            ("type"@, dec_digits(self.category_id as nat)),
            ("title"@, self.title@),
            ("year"@, dec_digits(self.year as nat)),
            ("releasetype"@, dec_digits(self.release_type as nat)),
            ("format"@, self.edition.format@),
            ("bitrate"@, self.edition.bitrate@),
            ("media"@, self.media@),
            ("tags"@, joined_comma(strings_view(self.tags@))),
            ("album_desc"@, self.album_desc@),
            ("release_desc"@, self.release_desc@),
            ("unknown"@, (if self.edition.unknown_release {
                "1"@
            } else {
                "0"@
            })),
        ]
    }

    /// The fields only present when the form asks for them: the request id,
    /// the image URL, the explicit remaster flag, and the edition details
    /// (omitted entirely for an unknown release).
    pub open spec fn optional_fields(self) -> Seq<(Seq<char>, Seq<char>)> {
        (match self.request_id {
            Some(id) => seq![("requestid"@, dec_digits(id as nat))],
            None => Seq::empty(),
        }) + (match self.image {
            Some(img) => seq![("image"@, img@)],
            None => Seq::empty(),
        }) + (match self.edition.remaster {
            Some(r) => seq![
                ("remaster"@, (if r {
                    "1"@
                } else {
                    "0"@
                })),
            ],
            None => Seq::empty(),
        }) + (if !self.edition.unknown_release {
            seq![
                ("remaster_year"@, dec_digits(self.edition.year as nat)),
                ("remaster_title"@, self.edition.title@),
                ("remaster_record_label"@, self.edition.record_label@),
                ("remaster_catalogue_number"@, self.edition.catalogue_number@),
            ]
        } else {
            Seq::empty()
        })
    }

    /// All the text fields of this upload, in the order they are sent.
    pub open spec fn spec_text_fields(self) -> Seq<(Seq<char>, Seq<char>)> {
        self.base_fields() + self.optional_fields() + artist_fields(self.artists@)
    }

    /// Convert this payload into text field pairs.
    ///
    /// This keeps the multipart field mapping testable without relying on
    /// the transport's form type; the torrent file part is attached by the
    /// transport.
    pub fn to_text_fields(&self) -> (r: Vec<(String, String)>)
        ensures
            pairs_view(r@) == self.spec_text_fields(),
    {
        let mut fields: Vec<(String, String)> = Vec::new();
        fields.push(("type".to_owned(), u64_to_dec(self.category_id as u64)));
        fields.push(("title".to_owned(), self.title.clone()));
        fields.push(("year".to_owned(), u64_to_dec(self.year as u64)));
        fields.push(("releasetype".to_owned(), u64_to_dec(self.release_type as u64)));
        fields.push(("format".to_owned(), self.edition.format.clone()));
        fields.push(("bitrate".to_owned(), self.edition.bitrate.clone()));
        fields.push(("media".to_owned(), self.media.clone()));
        fields.push(("tags".to_owned(), join_comma(&self.tags)));
        fields.push(("album_desc".to_owned(), self.album_desc.clone()));
        fields.push(("release_desc".to_owned(), self.release_desc.clone()));
        fields.push((
            "unknown".to_owned(),
            if self.edition.unknown_release {
                "1".to_owned()
            } else {
                "0".to_owned()
            },
        ));
        proof {
            assert(pairs_view(fields@) =~= self.base_fields());
        }
        let ghost req_part = (match self.request_id {
            Some(id) => seq![("requestid"@, dec_digits(id as nat))],
            None => Seq::<(Seq<char>, Seq<char>)>::empty(),
        });
        if let Some(request_id) = self.request_id {
            fields.push(("requestid".to_owned(), u64_to_dec(request_id as u64)));
        }
        proof {
            assert(pairs_view(fields@) =~= self.base_fields() + req_part);
        }
        let ghost img_part = (match &self.image {
            Some(img) => seq![("image"@, img@)],
            None => Seq::<(Seq<char>, Seq<char>)>::empty(),
        });
        if let Some(image) = &self.image {
            fields.push(("image".to_owned(), image.clone()));
        }
        proof {
            assert(pairs_view(fields@) =~= self.base_fields() + req_part + img_part);
        }
        let ghost rem_part = (match self.edition.remaster {
            Some(r) => seq![
                ("remaster"@, (if r {
                    "1"@
                } else {
                    "0"@
                })),
            ],
            None => Seq::<(Seq<char>, Seq<char>)>::empty(),
        });
        if let Some(remaster) = self.edition.remaster {
            fields.push((
                "remaster".to_owned(),
                if remaster {
                    "1".to_owned()
                } else {
                    "0".to_owned()
                },
            ));
        }
        proof {
            assert(pairs_view(fields@) =~= self.base_fields() + req_part + img_part + rem_part);
        }
        if !self.edition.unknown_release {
            fields.push(("remaster_year".to_owned(), u64_to_dec(self.edition.year as u64)));
            fields.push(("remaster_title".to_owned(), self.edition.title.clone()));
            fields.push(("remaster_record_label".to_owned(), self.edition.record_label.clone()));
            fields.push((
                "remaster_catalogue_number".to_owned(),
                self.edition.catalogue_number.clone(),
            ));
        }
        proof {
            assert(pairs_view(fields@) =~= self.base_fields() + self.optional_fields());
        }
        let mut i: usize = 0;
        proof {
            assert(artist_fields(self.artists@.take(0)) =~= Seq::<(Seq<char>, Seq<char>)>::empty());
            assert(pairs_view(fields@) =~= self.base_fields() + self.optional_fields()
                + artist_fields(self.artists@.take(0)));
        }
        while i < self.artists.len()
            invariant
                i <= self.artists@.len(),
                pairs_view(fields@) == self.base_fields() + self.optional_fields()
                    + artist_fields(self.artists@.take(i as int)),
            decreases self.artists@.len() - i,
        {
            let ghost start = fields@;
            let artist = &self.artists[i];
            let key = ("artists[]".to_owned(), artist.name.clone());
            let importance = ("importance[]".to_owned(), u64_to_dec(artist.role as u64));
            proof {
                crate::text::lemma_pairs_view_push(start, key);
                crate::text::lemma_pairs_view_push(start.push(key), importance);
            }
            fields.push(key);
            fields.push(importance);
            proof {
                let a = self.artists@;
                assert(a.take(i + 1).drop_last() =~= a.take(i as int));
                assert(a.take(i + 1).last() == a[i as int]);
                assert(artist_fields(a.take(i + 1)) == artist_fields(a.take(i as int)) + seq![
                    ("artists[]"@, a[i as int].name@),
                    ("importance[]"@, dec_digits(a[i as int].role as nat)),
                ]);
                assert(pairs_view(fields@) =~= self.base_fields() + self.optional_fields()
                    + artist_fields(a.take(i + 1)));
            }
            i += 1;
        }
        proof {
            assert(self.artists@.take(self.artists@.len() as int) =~= self.artists@);
        }
        fields
    }

    /// A ready-filled example form: an unknown-release WEB FLAC upload with
    /// a single artist credit.
    pub fn mock() -> (r: NewSourceUploadForm)
        ensures
            r.path@ == "/tmp/example.torrent"@,
            r.category_id == 0,
            r.title@ == "Example Album"@,
            r.year == 2024,
            r.release_type == 1,
            r.media@ == "WEB"@,
            r.tags@.len() == 1,
            r.tags@[0]@ == "electronic"@,
            r.album_desc@.len() == 0,
            r.release_desc@.len() == 0,
            r.request_id is None,
            r.image is None,
            r.edition.unknown_release,
            r.edition.remaster is None,
            r.edition.year == 0,
            r.edition.title@.len() == 0,
            r.edition.record_label@.len() == 0,
            r.edition.catalogue_number@.len() == 0,
            r.edition.format@ == "FLAC"@,
            r.edition.bitrate@ == "Lossless"@,
            r.artists@.len() == 1,
            r.artists@[0].name@ == "Artist"@,
            r.artists@[0].role == 1,
    {
        let mut tags: Vec<String> = Vec::new();
        tags.push("electronic".to_owned());
        let mut artists: Vec<NewSourceUploadArtist> = Vec::new();
        artists.push(NewSourceUploadArtist { name: "Artist".to_owned(), role: 1 });
        proof {
            reveal_strlit("");
        }
        NewSourceUploadForm {
            path: "/tmp/example.torrent".to_owned(),
            category_id: 0,
            title: "Example Album".to_owned(),
            year: 2024,
            release_type: 1,
            media: "WEB".to_owned(),
            tags,
            album_desc: "".to_owned(),
            release_desc: "".to_owned(),
            request_id: None,
            image: None,
            edition: NewSourceUploadEdition {
                unknown_release: true,
                remaster: None,
                year: 0,
                title: "".to_owned(),
                record_label: "".to_owned(),
                catalogue_number: "".to_owned(),
                format: "FLAC".to_owned(),
                bitrate: "Lossless".to_owned(),
            },
            artists,
        }
    }
}

} // verus!

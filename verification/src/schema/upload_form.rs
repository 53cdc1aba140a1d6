use vstd::prelude::*;

use crate::text::dec_digits;
use crate::text::pairs_view;
use crate::text::u64_to_dec;

verus! {

/// Form data for uploading a torrent into an existing group.
#[derive(Clone, Debug)]
pub struct UploadForm {
    /// Path to the torrent file to upload.
    pub path: String,
    /// ID number of the category.
    pub category_id: u8,
    /// Edition year.
    pub remaster_year: u16,
    /// Edition title.
    pub remaster_title: String,
    /// Edition record label.
    pub remaster_record_label: String,
    /// Edition catalogue number.
    pub remaster_catalogue_number: String,
    /// Audio format.
    pub format: String,
    /// Audio encoding.
    pub bitrate: String,
    /// Media type.
    pub media: String,
    /// Description formatted as BB code.
    pub release_desc: String,
    /// ID of the torrent group.
    pub group_id: u32,
}

impl UploadForm {
    /// The text fields of the multipart upload request, in order.  The
    /// `remaster` flag is always set: one deployment requires it.
    pub open spec fn spec_text_fields(self) -> Seq<(Seq<char>, Seq<char>)> {
        seq![
            ("type"@, dec_digits(self.category_id as nat)),
            ("remaster"@, "1"@),
            ("remaster_title"@, self.remaster_title@),
            ("remaster_record_label"@, self.remaster_record_label@),
            ("remaster_catalogue_number"@, self.remaster_catalogue_number@),
            ("remaster_year"@, dec_digits(self.remaster_year as nat)),
            ("format"@, self.format@),
            ("bitrate"@, self.bitrate@),
            ("media"@, self.media@),
            ("release_desc"@, self.release_desc@),
            ("groupid"@, dec_digits(self.group_id as nat)),
        ]
    }

    /// Convert this payload into the text field pairs of the multipart
    /// upload request; the torrent file part is attached by the transport.
    pub fn to_text_fields(&self) -> (r: Vec<(String, String)>)
        ensures
            pairs_view(r@) == self.spec_text_fields(),
    {
        let mut fields: Vec<(String, String)> = Vec::new();
        fields.push(("type".to_owned(), u64_to_dec(self.category_id as u64)));
        fields.push(("remaster".to_owned(), "1".to_owned()));
        fields.push(("remaster_title".to_owned(), self.remaster_title.clone()));
        fields.push(("remaster_record_label".to_owned(), self.remaster_record_label.clone()));
        fields.push((
            "remaster_catalogue_number".to_owned(),
            self.remaster_catalogue_number.clone(),
        ));
        fields.push(("remaster_year".to_owned(), u64_to_dec(self.remaster_year as u64)));
        fields.push(("format".to_owned(), self.format.clone()));
        fields.push(("bitrate".to_owned(), self.bitrate.clone()));
        fields.push(("media".to_owned(), self.media.clone()));
        fields.push(("release_desc".to_owned(), self.release_desc.clone()));
        fields.push(("groupid".to_owned(), u64_to_dec(self.group_id as u64)));
        proof {
            assert(pairs_view(fields@) =~= self.spec_text_fields());
        }
        fields
    }
}

} // verus!

//! The data model: coarse content kinds, detected format records and
//! recorded history entries, together with their mathematical views.

use vstd::prelude::*;
use vstd::string::StringExecFns;

verus! {

/// The single coarse category assigned to a payload by the priority-ordered
/// classifier.
#[derive(Clone, Copy, PartialEq, Eq, Structural, Debug)]
pub enum ContentKind {
    Url,
    Ftp,
    Json,
    Html,
    Rtf,
    FilePath,
    Email,
    MultilineText,
    Number,
    Text,
    Image,
}

/// The label each kind is reported under.
pub open spec fn kind_label(k: ContentKind) -> Seq<char> {
    match k {
        ContentKind::Url => "URL"@,
        ContentKind::Ftp => "FTP"@,
        ContentKind::Json => "JSON"@,
        ContentKind::Html => "HTML"@,
        ContentKind::Rtf => "RTF"@,
        ContentKind::FilePath => "File Path"@,
        ContentKind::Email => "Email"@,
        ContentKind::MultilineText => "Multiline Text"@,
        ContentKind::Number => "Number"@,
        ContentKind::Text => "Text"@,
        ContentKind::Image => "Image"@,
    }
}

impl ContentKind {
    /// The kind's label as a fresh string.
    pub fn label(self) -> (r: String)
        ensures
            r@ == kind_label(self),
    {
        match self {
            ContentKind::Url => String::from_str("URL"),
            ContentKind::Ftp => String::from_str("FTP"),
            ContentKind::Json => String::from_str("JSON"),
            ContentKind::Html => String::from_str("HTML"),
            ContentKind::Rtf => String::from_str("RTF"),
            ContentKind::FilePath => String::from_str("File Path"),
            ContentKind::Email => String::from_str("Email"),
            ContentKind::MultilineText => String::from_str("Multiline Text"),
            ContentKind::Number => String::from_str("Number"),
            ContentKind::Text => String::from_str("Text"),
            ContentKind::Image => String::from_str("Image"),
        }
    }
}

/// One detected interpretation of a clipboard payload.
pub struct ClipboardFormat {
    pub format_name: String,
    pub format_type: String,
    pub data_size: usize,
    pub content_preview: String,
    pub is_available: bool,
    pub raw_data: Option<String>,
}

/// The mathematical shadow of a `ClipboardFormat`.
#[verifier::ext_equal]
pub ghost struct FormatView {
    pub format_name: Seq<char>,
    pub format_type: Seq<char>,
    pub data_size: int,
    pub content_preview: Seq<char>,
    pub is_available: bool,
    pub raw_data: Option<Seq<char>>,
}

impl View for ClipboardFormat {
    type V = FormatView;

    open spec fn view(&self) -> FormatView {
        FormatView {
            format_name: self.format_name@,
            format_type: self.format_type@,
            data_size: self.data_size as int,
            content_preview: self.content_preview@,
            is_available: self.is_available,
            raw_data: match self.raw_data {
                Some(s) => Some(s@),
                None => None,
            },
        }
    }
}

impl DeepView for ClipboardFormat {
    type V = FormatView;

    open spec fn deep_view(&self) -> FormatView {
        self.view()
    }
}

impl Clone for ClipboardFormat {
    fn clone(&self) -> (res: Self)
        ensures
            res@ == self@,
    {
        ClipboardFormat {
            format_name: self.format_name.clone(),
            format_type: self.format_type.clone(),
            data_size: self.data_size,
            content_preview: self.content_preview.clone(),
            is_available: self.is_available,
            raw_data: match &self.raw_data {
                Some(s) => Some(s.clone()),
                None => None,
            },
        }
    }
}

/// A raw image payload as the clipboard backend hands it over: a tightly
/// packed RGBA byte buffer with its dimensions.
pub struct RawImage {
    pub rgba: Vec<u8>,
    pub width: u32,
    pub height: u32,
}

/// One immutable recorded clipboard snapshot.
pub struct ClipboardHistoryItem {
    pub id: String,
    pub timestamp: String,
    pub formats: Vec<ClipboardFormat>,
    pub primary_content: String,
    pub content_type: ContentKind,
    pub plain_text: Option<String>,
    pub html_content: Option<String>,
    pub rtf_content: Option<String>,
    pub image_data: Option<String>,
    pub image_format: Option<String>,
    pub image_dimensions: Option<(u32, u32)>,
    pub file_paths: Option<Vec<String>>,
    pub file_list: Option<String>,
    pub custom_formats: Option<Vec<(String, String)>>,
}

/// The mathematical shadow of a `ClipboardHistoryItem`.
#[verifier::ext_equal]
pub ghost struct EntryView {
    pub id: Seq<char>,
    pub timestamp: Seq<char>,
    pub formats: Seq<FormatView>,
    pub primary_content: Seq<char>,
    pub content_type: ContentKind,
    pub plain_text: Option<Seq<char>>,
    pub html_content: Option<Seq<char>>,
    pub rtf_content: Option<Seq<char>>,
    pub image_data: Option<Seq<char>>,
    pub image_format: Option<Seq<char>>,
    pub image_dimensions: Option<(u32, u32)>,
    pub file_paths: Option<Seq<Seq<char>>>,
    pub file_list: Option<Seq<char>>,
    pub custom_formats: Option<Seq<(Seq<char>, Seq<char>)>>,
}

pub open spec fn opt_view(o: Option<String>) -> Option<Seq<char>> {
    match o {
        Some(s) => Some(s@),
        None => None,
    }
}

impl View for ClipboardHistoryItem {
    type V = EntryView;

    open spec fn view(&self) -> EntryView {
        EntryView {
            id: self.id@,
            timestamp: self.timestamp@,
            formats: self.formats.deep_view(),
            primary_content: self.primary_content@,
            content_type: self.content_type,
            plain_text: opt_view(self.plain_text),
            html_content: opt_view(self.html_content),
            rtf_content: opt_view(self.rtf_content),
            image_data: opt_view(self.image_data),
            image_format: opt_view(self.image_format),
            image_dimensions: self.image_dimensions,
            file_paths: match self.file_paths {
                Some(v) => Some(v.deep_view()),
                None => None,
            },
            file_list: opt_view(self.file_list),
            custom_formats: match self.custom_formats {
                Some(v) => Some(v.deep_view()),
                None => None,
            },
        }
    }
}

impl DeepView for ClipboardHistoryItem {
    type V = EntryView;

    open spec fn deep_view(&self) -> EntryView {
        self.view()
    }
}

fn clone_opt_string(o: &Option<String>) -> (res: Option<String>)
    ensures
        opt_view(res) == opt_view(*o),
{
    match o {
        Some(s) => Some(s.clone()),
        None => None,
    }
}

impl Clone for ClipboardHistoryItem {
    fn clone(&self) -> (res: Self)
        ensures
            res@ == self@,
    {
        let res = ClipboardHistoryItem {
            id: self.id.clone(),
            timestamp: self.timestamp.clone(),
            formats: self.formats.clone(),
            primary_content: self.primary_content.clone(),
            content_type: self.content_type,
            plain_text: clone_opt_string(&self.plain_text),
            html_content: clone_opt_string(&self.html_content),
            rtf_content: clone_opt_string(&self.rtf_content),
            image_data: clone_opt_string(&self.image_data),
            image_format: clone_opt_string(&self.image_format),
            image_dimensions: self.image_dimensions,
            file_paths: match &self.file_paths {
                Some(v) => Some(v.clone()),
                None => None,
            },
            file_list: clone_opt_string(&self.file_list),
            custom_formats: match &self.custom_formats {
                Some(v) => Some(clone_pairs(v)),
                None => None,
            },
        };
        proof {
            assert(res.formats.deep_view() =~= self.formats.deep_view());
            if self.file_paths is Some {
                assert(res.file_paths.unwrap().deep_view() =~= self.file_paths.unwrap().deep_view());
            }
            assert(res@ =~= self@);
        }
        res
    }
}

fn clone_pairs(v: &Vec<(String, String)>) -> (res: Vec<(String, String)>)
    ensures
        res.deep_view() == v.deep_view(),
{
    let mut res: Vec<(String, String)> = Vec::new();
    let mut i: usize = 0;
    while i < v.len()
        invariant
            i <= v@.len(),
            res@.len() == i,
            forall|k: int| 0 <= k < i ==> res.deep_view()[k] == v.deep_view()[k],
        decreases v@.len() - i,
    {
        let p = &v[i];
        res.push((p.0.clone(), p.1.clone()));
        i += 1;
    }
    proof {
        assert(res.deep_view() =~= v.deep_view());
    }
    res
}

} // verus!

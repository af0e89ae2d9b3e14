//! What a tool hands to the model.

use vstd::prelude::*;
use vstd::string::*;

use crate::duplicate::Duplicate;
use crate::json::Json;
use crate::text::same;

verus! {

/// The image formats that a model can be shown.
#[derive(Debug, Clone, Copy, PartialEq, Eq, Structural)]
pub enum ImageMediaType {
    /// `image/jpeg`.
    JPEG,
    /// `image/png`.
    PNG,
    /// `image/gif`.
    GIF,
    /// `image/webp`.
    WEBP,
    /// `image/heic`.
    HEIC,
    /// `image/heif`.
    HEIF,
    /// `image/svg+xml`.
    SVG,
}

/// The image format that a MIME type names, where it names one.
pub open spec fn image_media_type(mime_type: Seq<char>) -> Option<ImageMediaType> {
    if mime_type == "image/jpeg"@ {
        Some(ImageMediaType::JPEG)
    } else if mime_type == "image/png"@ {
        Some(ImageMediaType::PNG)
    } else if mime_type == "image/gif"@ {
        Some(ImageMediaType::GIF)
    } else if mime_type == "image/webp"@ {
        Some(ImageMediaType::WEBP)
    } else if mime_type == "image/heic"@ {
        Some(ImageMediaType::HEIC)
    } else if mime_type == "image/heif"@ {
        Some(ImageMediaType::HEIF)
    } else if mime_type == "image/svg+xml"@ {
        Some(ImageMediaType::SVG)
    } else {
        None
    }
}

impl ImageMediaType {
    /// The image format that a MIME type names, where it names one.
    pub fn from_mime_type(mime_type: &str) -> (media_type: Option<ImageMediaType>)
        ensures
            media_type == image_media_type(mime_type@),
    {
        if same(mime_type, "image/jpeg") {
            Some(ImageMediaType::JPEG)
        } else if same(mime_type, "image/png") {
            Some(ImageMediaType::PNG)
        } else if same(mime_type, "image/gif") {
            Some(ImageMediaType::GIF)
        } else if same(mime_type, "image/webp") {
            Some(ImageMediaType::WEBP)
        } else if same(mime_type, "image/heic") {
            Some(ImageMediaType::HEIC)
        } else if same(mime_type, "image/heif") {
            Some(ImageMediaType::HEIF)
        } else if same(mime_type, "image/svg+xml") {
            Some(ImageMediaType::SVG)
        } else {
            None
        }
    }
}

/// One block of a tool's output.
#[derive(Debug)]
pub enum ToolResultContent {
    /// Text.
    Text(String),
    /// A JSON value.
    Json(Json),
    /// An image in base64.
    Image {
        /// The base64 data.
        data: String,
        /// The image format.
        media_type: Option<ImageMediaType>,
    },
}

/// The model of one block of a tool's output.
pub enum ContentView {
    /// Text.
    Text(Seq<char>),
    /// A JSON value by its compact rendering.
    Json(Seq<char>),
    /// An image.
    Image {
        /// The base64 data.
        data: Seq<char>,
        /// The image format.
        media_type: Option<ImageMediaType>,
    },
}

impl DeepView for ToolResultContent {
    type V = ContentView;

    open spec fn deep_view(&self) -> ContentView {
        match self {
            ToolResultContent::Text(text) => ContentView::Text(text@),
            ToolResultContent::Json(value) => ContentView::Json(value.deep_view()),
            ToolResultContent::Image { data, media_type } => ContentView::Image {
                data: data@,
                media_type: *media_type,
            },
        }
    }
}

impl Duplicate for ToolResultContent {
    fn duplicate(&self) -> (copy: Self) {
        match self {
            ToolResultContent::Text(text) => ToolResultContent::Text(text.clone()),
            ToolResultContent::Json(value) => ToolResultContent::Json(value.duplicate()),
            ToolResultContent::Image { data, media_type } => ToolResultContent::Image {
                data: data.clone(),
                media_type: *media_type,
            },
        }
    }
}

impl Clone for ToolResultContent {
    fn clone(&self) -> (copy: Self)
        ensures
            copy.deep_view() == self.deep_view(),
    {
        self.duplicate()
    }
}

/// The ordered blocks that a tool hands to the model.
#[derive(Debug)]
pub struct ToolOutput {
    /// The blocks, in order.
    pub content: Vec<ToolResultContent>,
}

impl DeepView for ToolOutput {
    type V = Seq<ContentView>;

    open spec fn deep_view(&self) -> Seq<ContentView> {
        self.content.deep_view()
    }
}

impl Duplicate for ToolOutput {
    fn duplicate(&self) -> (copy: Self) {
        ToolOutput { content: self.content.duplicate() }
    }
}

impl Clone for ToolOutput {
    fn clone(&self) -> (copy: Self)
        ensures
            copy.deep_view() == self.deep_view(),
    {
        self.duplicate()
    }
}

impl ToolOutput {
    /// Output of one block.
    pub fn one(block: ToolResultContent) -> (output: ToolOutput)
        ensures
            output.deep_view() == seq![block.deep_view()],
    {
        let output = ToolOutput { content: vec![block] };
        assert(output.deep_view() =~= seq![block.deep_view()]);
        output
    }

    /// Output of one text block.
    pub fn text(text: String) -> (output: ToolOutput)
        ensures
            output.deep_view() == seq![ContentView::Text(text@)],
    {
        ToolOutput::one(ToolResultContent::Text(text))
    }

    /// Output of one JSON block.
    pub fn json(value: Json) -> (output: ToolOutput)
        ensures
            output.deep_view() == seq![ContentView::Json(value.deep_view())],
    {
        ToolOutput::one(ToolResultContent::Json(value))
    }

    /// Output of the given blocks.
    pub fn content(blocks: Vec<ToolResultContent>) -> (output: ToolOutput)
        requires
            blocks@.len() > 0,
        ensures
            output.deep_view() == blocks.deep_view(),
    {
        ToolOutput { content: blocks }
    }

    /// The text, where the output is one text block.
    pub fn as_text(&self) -> (text: Option<&str>)
        ensures
            match text {
                Some(found) => self.deep_view() == seq![ContentView::Text(found@)],
                None => !(self.deep_view().len() == 1 && self.deep_view()[0] is Text),
            },
    {
        if self.content.len() == 1 {
            match &self.content[0] {
                ToolResultContent::Text(text) => {
                    assert(self.deep_view() =~= seq![ContentView::Text(text@)]);
                    Some(text.as_str())
                },
                _ => {
                    assert(self.deep_view()[0] == self.content@[0].deep_view());
                    None
                },
            }
        } else {
            None
        }
    }
}

/// Every known image format has one name and no other name stands for it.
pub proof fn image_formats_have_one_name(mime_type: Seq<char>)
    ensures
        image_media_type(mime_type) == Some(ImageMediaType::JPEG) <==> mime_type == "image/jpeg"@,
        image_media_type("image/png"@) == Some(ImageMediaType::PNG),
        image_media_type("image/gif"@) == Some(ImageMediaType::GIF),
        image_media_type("image/webp"@) == Some(ImageMediaType::WEBP),
        image_media_type("image/heic"@) == Some(ImageMediaType::HEIC),
        image_media_type("image/heif"@) == Some(ImageMediaType::HEIF),
        image_media_type("image/svg+xml"@) == Some(ImageMediaType::SVG),
        image_media_type(mime_type) is Some ==> mime_type == "image/jpeg"@ || mime_type
            == "image/png"@ || mime_type == "image/gif"@ || mime_type == "image/webp"@ || mime_type
            == "image/heic"@ || mime_type == "image/heif"@ || mime_type == "image/svg+xml"@,
{
    reveal_strlit("image/jpeg");
    reveal_strlit("image/png");
    reveal_strlit("image/gif");
    reveal_strlit("image/webp");
    reveal_strlit("image/heic");
    reveal_strlit("image/heif");
    reveal_strlit("image/svg+xml");
    let names = seq![
        "image/jpeg"@,
        "image/png"@,
        "image/gif"@,
        "image/webp"@,
        "image/heic"@,
        "image/heif"@,
        "image/svg+xml"@,
    ];
    assert(names[0][6] == 'j' && names[1][6] == 'p' && names[2][6] == 'g' && names[3][6] == 'w'
        && names[4][6] == 'h' && names[5][6] == 'h' && names[6][6] == 's');
    assert(names[4][9] == 'c' && names[5][9] == 'f');
}

} // verus!

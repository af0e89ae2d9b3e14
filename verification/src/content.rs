//! Reading MCP tool results and presenting them to the model.

use vstd::prelude::*;
use vstd::string::*;

use crate::duplicate::Duplicate;
use crate::error::{
    plain_error, ErrorCause, ErrorCauseView, ErrorView, ToolErrorKind, ToolExecutionError,
};
use crate::json::Json;
use crate::model::{
    result_view, BlockShape, BlockShapeView, CallToolResult, CallToolResultView, ContentBlock,
    ContentBlockView, Rendering, RenderingView,
};
use crate::output::{image_media_type, ContentView, ImageMediaType, ToolOutput, ToolResultContent};
use crate::result::{
    failed_result, success_result, ToolContext, ToolContextView, ToolResult, ToolResultView,
};
use crate::text::{mentions, parts_are_mentioned, same};

verus! {

/// A tool result whose blocks are only known as JSON.
pub struct RawCallResult {
    /// The content blocks as JSON, in order.
    pub content: Vec<Rendering>,
    /// The structured result.
    pub structured_content: Option<Json>,
    /// Whether the tool reports an error.
    pub is_error: Option<bool>,
    /// Protocol-level metadata.
    pub meta: Option<Json>,
}

/// The model of a [`RawCallResult`].
#[verifier::ext_equal]
pub struct RawCallResultView {
    /// The content blocks as JSON, in order.
    pub content: Seq<RenderingView>,
    /// The structured result.
    pub structured_content: Option<Seq<char>>,
    /// Whether the tool reports an error.
    pub is_error: Option<bool>,
    /// Protocol-level metadata.
    pub meta: Option<Seq<char>>,
}

impl DeepView for RawCallResult {
    type V = RawCallResultView;

    open spec fn deep_view(&self) -> RawCallResultView {
        RawCallResultView {
            content: self.content.deep_view(),
            structured_content: self.structured_content.deep_view(),
            is_error: self.is_error,
            meta: self.meta.deep_view(),
        }
    }
}

/// What rmcp reads as a tool result in a JSON text, or the reader's complaint.
pub uninterp spec fn rmcp_call_result(text: Seq<char>) -> Result<RawCallResultView, Seq<char>>;

/// What rmcp reads as a content block in a JSON text.
pub uninterp spec fn rmcp_block_shape(text: Seq<char>) -> BlockShapeView;

/// Calls `serde_json::from_value` for an `rmcp::model::CallToolResult`, on the value that
/// `serde_json::from_str` reads in the text, and renders each of its content blocks with
/// `serde_json::to_value`. The parts, or the message of the first error, depend on the text alone
/// and are known here by name.
#[verifier::external_body]
fn read_call_result(text: &str) -> (result: Result<RawCallResult, String>)
    ensures
        result_view(result) == rmcp_call_result(text@),
{
    let result = serde_json::from_str::<serde_json::Value>(text)
        .and_then(serde_json::from_value::<rmcp::model::CallToolResult>)
        .map_err(|error| error.to_string())?;
    let blocks = result.content.iter().map(|block| match serde_json::to_value(block) {
        Ok(value) => Rendering::Value(Json { text: value.to_string() }),
        Err(error) => Rendering::Failed(error.to_string()),
    });
    Ok(RawCallResult {
        content: blocks.collect(),
        structured_content: result.structured_content.map(|value| Json { text: value.to_string() }),
        is_error: result.is_error,
        meta: result.meta.map(|m| Json { text: serde_json::Value::Object(m.0).to_string() }),
    })
}

/// Calls `serde_json::from_str` for an `rmcp::model::ContentBlock` and tells its variants apart. A
/// text that is no such block counts as [`BlockShape::Other`]. The shape depends on the text alone
/// and is known here by name.
#[verifier::external_body]
fn read_block_shape(text: &str) -> (shape: BlockShape)
    ensures
        shape.deep_view() == rmcp_block_shape(text@),
{
    match serde_json::from_str::<rmcp::model::ContentBlock>(text) {
        Ok(rmcp::model::ContentBlock::Text(block)) => BlockShape::Text(block.text),
        Ok(rmcp::model::ContentBlock::Image(block)) => {
            BlockShape::Image { data: block.data, mime_type: block.mime_type }
        },
        Ok(rmcp::model::ContentBlock::Resource(block)) => match block.resource {
            rmcp::model::ResourceContents::TextResourceContents { .. } => BlockShape::TextResource,
            rmcp::model::ResourceContents::BlobResourceContents { mime_type, blob, .. } => {
                BlockShape::BlobResource { blob_mime_type: mime_type, blob }
            },
            _ => BlockShape::Other,
        },
        _ => BlockShape::Other,
    }
}

/// A content block by its JSON.
pub open spec fn block_of(json: RenderingView) -> ContentBlockView {
    ContentBlockView {
        shape: match json {
            RenderingView::Value(text) => rmcp_block_shape(text),
            RenderingView::Failed(_) => BlockShapeView::Other,
        },
        json,
    }
}

/// The content block that `json` renders.
pub fn content_block(json: Rendering) -> (block: ContentBlock)
    ensures
        block.deep_view() == block_of(json.deep_view()),
{
    let shape = match &json {
        Rendering::Value(value) => read_block_shape(value.text.as_str()),
        Rendering::Failed(_) => BlockShape::Other,
    };
    ContentBlock { shape, json }
}

/// A tool result with its blocks read.
pub open spec fn call_result_of(raw: RawCallResultView) -> CallToolResultView {
    CallToolResultView {
        content: Seq::new(raw.content.len(), |i: int| block_of(raw.content[i])),
        structured_content: raw.structured_content,
        is_error: raw.is_error,
        meta: raw.meta,
    }
}

/// The tool result in a JSON text, or the reader's complaint.
pub open spec fn decoded_call_result(text: Seq<char>) -> Result<CallToolResultView, Seq<char>> {
    match rmcp_call_result(text) {
        Ok(raw) => Ok(call_result_of(raw)),
        Err(message) => Err(message),
    }
}

/// Reads each block of a tool result.
pub fn assemble_call_result(raw: RawCallResult) -> (result: CallToolResult)
    ensures
        result.deep_view() == call_result_of(raw.deep_view()),
{
    let mut content: Vec<ContentBlock> = Vec::new();
    let mut i: usize = 0;
    while i < raw.content.len()
        invariant
            i <= raw.content.len(),
            content.len() == i,
            forall|j: int|
                0 <= j < i ==> (#[trigger] content@[j]).deep_view() == block_of(
                    raw.content@[j].deep_view(),
                ),
        decreases raw.content.len() - i,
    {
        content.push(content_block(raw.content[i].duplicate()));
        i = i + 1;
    }
    let result = CallToolResult {
        content,
        structured_content: raw.structured_content,
        is_error: raw.is_error,
        meta: raw.meta,
    };
    assert(result.deep_view().content =~= call_result_of(raw.deep_view()).content);
    result
}

/// Reads a tool result from JSON.
pub fn decode_call_result(json: &Json) -> (result: Result<CallToolResult, String>)
    ensures
        result_view(result) == decoded_call_result(json.deep_view()),
{
    match read_call_result(json.text.as_str()) {
        Ok(raw) => Ok(assemble_call_result(raw)),
        Err(message) => Err(message),
    }
}

/// A block shown as JSON.
pub open spec fn block_as_json(block: ContentBlockView) -> Result<ContentView, ErrorView> {
    match block.json {
        RenderingView::Value(value) => Ok(ContentView::Json(value)),
        RenderingView::Failed(error) => Err(
            plain_error(
                ToolErrorKind::Provider,
                "failed to preserve an MCP content block as JSON: "@ + error,
            ).caused_by(ErrorCauseView::Json(error)),
        ),
    }
}

/// A block as the model is shown it: text as text, an image of a known format as an image, and
/// anything else as JSON.
pub open spec fn block_content(block: ContentBlockView) -> Result<ContentView, ErrorView> {
    match block.shape {
        BlockShapeView::Text(text) => Ok(ContentView::Text(text)),
        BlockShapeView::Image { data, mime_type } => match image_media_type(mime_type) {
            Some(media_type) => Ok(ContentView::Image { data, media_type: Some(media_type) }),
            None => block_as_json(block),
        },
        BlockShapeView::BlobResource { blob_mime_type: Some(mime_type), blob } => match image_media_type(
            mime_type,
        ) {
            Some(media_type) => Ok(ContentView::Image { data: blob, media_type: Some(media_type) }),
            None => block_as_json(block),
        },
        _ => block_as_json(block),
    }
}

/// Shows a block as JSON.
pub fn mcp_content_block_as_json(content: &ContentBlock) -> (shown: Result<
    ToolResultContent,
    ToolExecutionError,
>)
    ensures
        result_view(shown) == block_as_json(content.deep_view()),
{
    match &content.json {
        Rendering::Value(value) => Ok(ToolResultContent::Json(value.duplicate())),
        Rendering::Failed(error) => {
            let mut message = "failed to preserve an MCP content block as JSON: ".to_owned();
            message.append(error.as_str());
            Err(
                ToolExecutionError::provider(message).with_source(ErrorCause::Json(error.clone())),
            )
        },
    }
}

/// Shows a block to the model.
pub fn mcp_content_block_to_tool_content(content: &ContentBlock) -> (shown: Result<
    ToolResultContent,
    ToolExecutionError,
>)
    ensures
        result_view(shown) == block_content(content.deep_view()),
{
    match &content.shape {
        BlockShape::Text(text) => Ok(ToolResultContent::Text(text.clone())),
        BlockShape::Image { data, mime_type } => match ImageMediaType::from_mime_type(
            mime_type.as_str(),
        ) {
            Some(media_type) => Ok(
                ToolResultContent::Image { data: data.clone(), media_type: Some(media_type) },
            ),
            None => mcp_content_block_as_json(content),
        },
        BlockShape::BlobResource { blob_mime_type: Some(mime_type), blob } => {
            match ImageMediaType::from_mime_type(mime_type.as_str()) {
                Some(media_type) => Ok(
                    ToolResultContent::Image { data: blob.clone(), media_type: Some(media_type) },
                ),
                None => mcp_content_block_as_json(content),
            }
        },
        _ => mcp_content_block_as_json(content),
    }
}

/// Whether a block repeats the structured result as text, for clients that know no structured
/// results.
pub open spec fn is_fallback(block: ContentBlockView, structured: Option<Seq<char>>) -> bool {
    structured matches Some(value) && block.shape == BlockShapeView::Text(value)
}

/// Whether the block at `i` is the first that repeats the structured result.
pub open spec fn is_first_fallback(
    blocks: Seq<ContentBlockView>,
    structured: Option<Seq<char>>,
    i: int,
) -> bool {
    &&& 0 <= i < blocks.len()
    &&& is_fallback(blocks[i], structured)
    &&& forall|j: int| 0 <= j < i ==> !is_fallback(#[trigger] blocks[j], structured)
}

/// Whether some block repeats the structured result.
pub open spec fn has_fallback(
    blocks: Seq<ContentBlockView>,
    structured: Option<Seq<char>>,
) -> bool {
    exists|i: int| 0 <= i < blocks.len() && is_fallback(#[trigger] blocks[i], structured)
}

/// The first `n` blocks as the model is shown them, or the failure of the first that cannot be
/// shown. The first repetition of the structured result is shown as that result itself.
pub open spec fn shown_blocks(
    blocks: Seq<ContentBlockView>,
    structured: Option<Seq<char>>,
    n: nat,
) -> Result<Seq<ContentView>, ErrorView>
    decreases n,
{
    if n == 0 {
        Ok(Seq::empty())
    } else {
        match shown_blocks(blocks, structured, (n - 1) as nat) {
            Err(error) => Err(error),
            Ok(before) => if is_first_fallback(blocks, structured, n - 1) {
                Ok(before.push(ContentView::Json(structured->0)))
            } else {
                match block_content(blocks[n - 1]) {
                    Ok(content) => Ok(before.push(content)),
                    Err(error) => Err(error),
                }
            },
        }
    }
}

/// What the model is shown of a tool result. A structured result that no block repeats comes
/// first; a result without anything to show becomes one text.
pub open spec fn result_output(result: CallToolResultView) -> Result<Seq<ContentView>, ErrorView> {
    match shown_blocks(result.content, result.structured_content, result.content.len()) {
        Err(error) => Err(error),
        Ok(shown) => Ok(
            if result.structured_content is Some && !has_fallback(
                result.content,
                result.structured_content,
            ) {
                seq![ContentView::Json(result.structured_content->0)] + shown
            } else if shown.len() > 0 {
                shown
            } else if result.is_error == Some(true) {
                seq![ContentView::Text("the MCP tool reported an error"@)]
            } else {
                seq![ContentView::Text(""@)]
            },
        ),
    }
}

/// A failure anywhere in the first `n` blocks is the failure of all of them.
proof fn shown_blocks_error_stays(
    blocks: Seq<ContentBlockView>,
    structured: Option<Seq<char>>,
    n: nat,
    m: nat,
)
    requires
        shown_blocks(blocks, structured, n) is Err,
        n <= m,
    ensures
        shown_blocks(blocks, structured, m) == shown_blocks(blocks, structured, n),
    decreases m,
{
    if n < m {
        shown_blocks_error_stays(blocks, structured, n, (m - 1) as nat);
    }
}

/// Builds what the model is shown of a tool result, in the order of its blocks.
pub fn mcp_result_output(result: &CallToolResult) -> (output: Result<ToolOutput, ToolExecutionError>)
    ensures
        result_view(output) == result_output(result.deep_view()),
{
    let ghost blocks = result.content.deep_view();
    let ghost structured = result.structured_content.deep_view();
    let mut replaced = false;
    let mut mapped: Vec<ToolResultContent> = Vec::new();
    assert(mapped.deep_view() =~= Seq::<ContentView>::empty());
    let mut i: usize = 0;
    while i < result.content.len()
        invariant
            i <= result.content.len(),
            blocks == result.content.deep_view(),
            structured == result.structured_content.deep_view(),
            replaced == exists|j: int| 0 <= j < i && is_fallback(#[trigger] blocks[j], structured),
            shown_blocks(blocks, structured, i as nat) == Ok::<Seq<ContentView>, ErrorView>(
                mapped.deep_view(),
            ),
        decreases result.content.len() - i,
    {
        let block = &result.content[i];
        assert(block.deep_view() == blocks[i as int]);
        let mut fallback: Option<Json> = None;
        if !replaced {
            match (&block.shape, &result.structured_content) {
                (BlockShape::Text(text), Some(value)) => {
                    if same(text.as_str(), value.text.as_str()) {
                        fallback = Some(value.duplicate());
                    }
                },
                _ => {},
            }
        }
        let ghost before = mapped.deep_view();
        match fallback {
            Some(value) => {
                assert(is_first_fallback(blocks, structured, i as int));
                mapped.push(ToolResultContent::Json(value));
                replaced = true;
                assert(mapped.deep_view() =~= before.push(ContentView::Json(structured->0)));
            },
            None => {
                assert(!is_first_fallback(blocks, structured, i as int));
                assert(is_fallback(blocks[i as int], structured) ==> replaced);
                match mcp_content_block_to_tool_content(block) {
                    Ok(content) => {
                        let ghost shown = content.deep_view();
                        mapped.push(content);
                        assert(mapped.deep_view() =~= before.push(shown));
                    },
                    Err(error) => {
                        proof {
                            shown_blocks_error_stays(
                                blocks,
                                structured,
                                (i + 1) as nat,
                                blocks.len(),
                            );
                        }
                        return Err(error);
                    },
                }
            },
        }
        i = i + 1;
    }
    assert(replaced == has_fallback(blocks, structured));
    let ghost shown = mapped.deep_view();
    match &result.structured_content {
        Some(value) => {
            if !replaced {
                let ghost added = ContentView::Json(value.deep_view());
                mapped.insert(0, ToolResultContent::Json(value.duplicate()));
                assert(mapped.deep_view() =~= seq![added] + shown);
                return Ok(ToolOutput::content(mapped));
            }
        },
        None => {},
    }
    if !mapped.is_empty() {
        return Ok(ToolOutput::content(mapped));
    }
    if result.is_error == Some(true) {
        Ok(ToolOutput::text("the MCP tool reported an error".to_owned()))
    } else {
        Ok(ToolOutput::text("".to_owned()))
    }
}

/// The failure that a tool's own error report becomes.
pub open spec fn execution_error_message(tool_name: Option<Seq<char>>) -> Seq<char> {
    match tool_name {
        Some(name) => "MCP tool '"@ + name + "' reported an execution error"@,
        None => "MCP tool reported an execution error"@,
    }
}

/// A tool result as a final result: a failure where the tool reports an error.
pub open spec fn final_result(result: CallToolResultView, tool_name: Option<Seq<char>>) -> Result<
    ToolResultView,
    ErrorView,
> {
    match result_output(result) {
        Err(error) => Err(error),
        Ok(output) => Ok(
            if result.is_error == Some(true) {
                failed_result(
                    plain_error(ToolErrorKind::Other, execution_error_message(tool_name)).showing(
                        output,
                    ),
                )
            } else {
                success_result(output)
            },
        ),
    }
}

/// Turns a tool result into a final result.
pub fn mcp_call_result(result: &CallToolResult, tool_name: Option<&str>) -> (outcome: Result<
    ToolResult,
    ToolExecutionError,
>)
    ensures
        result_view(outcome) == final_result(
            result.deep_view(),
            match tool_name {
                Some(name) => Some(name@),
                None => None,
            },
        ),
{
    match mcp_result_output(result) {
        Err(error) => Err(error),
        Ok(output) => {
            if result.is_error == Some(true) {
                let message = match tool_name {
                    Some(name) => {
                        let mut message = "MCP tool '".to_owned();
                        message.append(name);
                        message.append("' reported an execution error");
                        message
                    },
                    None => "MCP tool reported an execution error".to_owned(),
                };
                Ok(ToolResult::failed(ToolExecutionError::other(message).with_model_output(output)))
            } else {
                Ok(ToolResult::success(output))
            }
        },
    }
}

/// A context after a tool result was kept in it.
pub open spec fn context_with_result(
    context: ToolContextView,
    result: CallToolResultView,
) -> ToolContextView {
    ToolContextView {
        structured: match result.structured_content {
            Some(value) => Some(value),
            None => context.structured,
        },
        meta: match result.meta {
            Some(value) => Some(value),
            None => context.meta,
        },
        call_result: Some(result),
        ..context
    }
}

/// Keeps a tool result, its structured part and its metadata in `context`.
pub fn preserve_mcp_result(context: &mut ToolContext, result: &CallToolResult)
    ensures
        final(context).deep_view() == context_with_result(
            old(context).deep_view(),
            result.deep_view(),
        ),
{
    match &result.structured_content {
        Some(value) => {
            context.structured = Some(value.duplicate());
        },
        None => {},
    }
    match &result.meta {
        Some(value) => {
            context.meta = Some(value.duplicate());
        },
        None => {},
    }
    context.call_result = Some(result.duplicate());
}

/// Where the blocks can be shown, there is one shown block for each: the first repetition of the
/// structured result is that result, and every other block stands in its own place.
pub proof fn shown_blocks_keep_their_places(
    blocks: Seq<ContentBlockView>,
    structured: Option<Seq<char>>,
    n: nat,
)
    requires
        n <= blocks.len(),
        shown_blocks(blocks, structured, n) is Ok,
    ensures
        shown_blocks(blocks, structured, n)->Ok_0.len() == n,
        forall|i: int|
            0 <= i < n ==> if is_first_fallback(blocks, structured, i) {
                #[trigger] shown_blocks(blocks, structured, n)->Ok_0[i] == ContentView::Json(
                    structured->0,
                )
            } else {
                block_content(blocks[i]) == Ok::<ContentView, ErrorView>(
                    shown_blocks(blocks, structured, n)->Ok_0[i],
                )
            },
    decreases n,
{
    if n > 0 {
        shown_blocks_keep_their_places(blocks, structured, (n - 1) as nat);
    }
}

/// A structured result is shown exactly once as itself, whatever its blocks repeat: in the place
/// of the first block that repeats it, or else before all blocks.
pub proof fn structured_result_has_one_place(result: CallToolResultView)
    requires
        result.structured_content is Some,
        result_output(result) is Ok,
    ensures
        ({
            let output = result_output(result)->Ok_0;
            let structured = result.structured_content;
            if has_fallback(result.content, structured) {
                &&& output.len() == result.content.len()
                &&& exists|i: int|
                    #![trigger output[i]]
                    is_first_fallback(result.content, structured, i) && output[i]
                        == ContentView::Json(structured->0)
            } else {
                &&& output.len() == result.content.len() + 1
                &&& output[0] == ContentView::Json(structured->0)
                &&& forall|i: int|
                    0 <= i < result.content.len() ==> block_content(#[trigger] result.content[i])
                        == Ok::<ContentView, ErrorView>(output[i + 1])
            }
        }),
{
    let blocks = result.content;
    let structured = result.structured_content;
    let output = result_output(result)->Ok_0;
    shown_blocks_keep_their_places(blocks, structured, blocks.len());
    if has_fallback(blocks, structured) {
        let some = choose|i: int| 0 <= i < blocks.len() && is_fallback(blocks[i], structured);
        first_fallback_exists(blocks, structured, some);
        let i = choose|i: int| is_first_fallback(blocks, structured, i);
        assert(output[i] == ContentView::Json(structured->0));
    } else {
        assert forall|i: int| 0 <= i < blocks.len() implies block_content(#[trigger] blocks[i])
            == Ok::<ContentView, ErrorView>(output[i + 1]) by {
            let shown = shown_blocks(blocks, structured, blocks.len())->Ok_0;
            assert(output[i + 1] == shown[i]);
            assert(!is_first_fallback(blocks, structured, i));
        }
    }
}

/// Where some block repeats the structured result, one does so first.
proof fn first_fallback_exists(
    blocks: Seq<ContentBlockView>,
    structured: Option<Seq<char>>,
    some: int,
)
    requires
        0 <= some < blocks.len(),
        is_fallback(blocks[some], structured),
    ensures
        exists|i: int| is_first_fallback(blocks, structured, i),
    decreases some,
{
    if forall|j: int| 0 <= j < some ==> !is_fallback(#[trigger] blocks[j], structured) {
        assert(is_first_fallback(blocks, structured, some));
    } else {
        let earlier = choose|j: int| 0 <= j < some && is_fallback(#[trigger] blocks[j], structured);
        first_fallback_exists(blocks, structured, earlier);
    }
}

/// What the model is shown is never empty.
pub proof fn output_is_never_empty(result: CallToolResultView)
    requires
        result_output(result) is Ok,
    ensures
        result_output(result)->Ok_0.len() > 0,
{
}

/// A result whose blocks can all be rendered as JSON can be shown.
pub proof fn renderable_results_can_be_shown(result: CallToolResultView)
    requires
        forall|i: int| 0 <= i < result.content.len() ==> (#[trigger] result.content[i]).json is Value,
    ensures
        result_output(result) is Ok,
{
    shown_blocks_succeed(result.content, result.structured_content, result.content.len());
}

proof fn shown_blocks_succeed(
    blocks: Seq<ContentBlockView>,
    structured: Option<Seq<char>>,
    n: nat,
)
    requires
        n <= blocks.len(),
        forall|i: int| 0 <= i < blocks.len() ==> (#[trigger] blocks[i]).json is Value,
    ensures
        shown_blocks(blocks, structured, n) is Ok,
    decreases n,
{
    if n > 0 {
        shown_blocks_succeed(blocks, structured, (n - 1) as nat);
        assert(blocks[n - 1].json is Value);
    }
}

/// Decoding loses nothing: the blocks stay in their places with their JSON and what it reads as,
/// and the structured result, the error report and the metadata are those that were read. A text
/// that does not read as a result is refused with the reader's complaint.
pub proof fn decoding_keeps_everything(raw: RawCallResultView, text: Seq<char>)
    ensures
        ({
            let result = call_result_of(raw);
            &&& result.structured_content == raw.structured_content
            &&& result.is_error == raw.is_error
            &&& result.meta == raw.meta
            &&& result.content.len() == raw.content.len()
            &&& forall|i: int|
                0 <= i < raw.content.len() ==> {
                    let block = #[trigger] result.content[i];
                    &&& block.json == raw.content[i]
                    &&& block.json matches RenderingView::Value(value) ==> block.shape
                        == rmcp_block_shape(value)
                    &&& block.json is Failed ==> block.shape is Other
                }
        }),
        rmcp_call_result(text) matches Ok(read) ==> decoded_call_result(text) == Ok::<
            CallToolResultView,
            Seq<char>,
        >(call_result_of(read)),
        rmcp_call_result(text) matches Err(complaint) ==> decoded_call_result(text) == Err::<
            CallToolResultView,
            Seq<char>,
        >(complaint),
{
}

/// A block is shown by what it is: text as its own text, an image of a known format as its own data
/// in that format, and anything else as its own JSON. It cannot be shown only where it has to be
/// shown as JSON and has none.
pub proof fn blocks_are_shown_as_they_are(block: ContentBlockView)
    ensures
        block.shape matches BlockShapeView::Text(text) ==> block_content(block) == Ok::<
            ContentView,
            ErrorView,
        >(ContentView::Text(text)),
        block.shape matches BlockShapeView::Image { data, mime_type } ==> (image_media_type(
            mime_type,
        ) is Some ==> block_content(block) == Ok::<ContentView, ErrorView>(
            ContentView::Image { data, media_type: image_media_type(mime_type) },
        )),
        block.shape matches BlockShapeView::BlobResource { blob_mime_type: Some(mime_type), blob }
            ==> (image_media_type(mime_type) is Some ==> block_content(block) == Ok::<
            ContentView,
            ErrorView,
        >(ContentView::Image { data: blob, media_type: image_media_type(mime_type) })),
        ({
            let as_json = match block.shape {
                BlockShapeView::Text(_) => false,
                BlockShapeView::Image { mime_type, .. } => image_media_type(mime_type) is None,
                BlockShapeView::BlobResource { blob_mime_type: Some(mime_type), .. } =>
                    image_media_type(mime_type) is None,
                _ => true,
            };
            &&& as_json && block.json is Value ==> block_content(block) == Ok::<
                ContentView,
                ErrorView,
            >(ContentView::Json(block.json->Value_0))
            &&& block_content(block) is Err <==> as_json && block.json is Failed
            &&& block_content(block) matches Err(error) ==> error.kind is Provider && error.cause
                == Some(ErrorCauseView::Json(block.json->Failed_0)) && mentions(
                error.message,
                block.json->Failed_0,
            )
        }),
{
    if block.json is Failed {
        let cause = block.json->Failed_0;
        let before = "failed to preserve an MCP content block as JSON: "@;
        parts_are_mentioned(before, cause, Seq::empty());
        assert(before + cause + Seq::<char>::empty() =~= before + cause);
    }
}

/// The model is shown every block of a result, in order and by what it is. A structured result
/// stands once among them as itself: in place of the first text that repeats it, and else before all
/// blocks. Only a result without blocks and structure is shown as one text of the library's own.
pub proof fn the_model_sees_every_block(result: CallToolResultView)
    requires
        result_output(result) is Ok,
    ensures
        ({
            let output = result_output(result)->Ok_0;
            let blocks = result.content;
            let as_text = BlockShapeView::Text(result.structured_content->0);
            let repeated = result.structured_content is Some && exists|i: int|
                0 <= i < blocks.len() && (#[trigger] blocks[i]).shape == as_text;
            let ahead: int = if result.structured_content is Some && !repeated {
                1
            } else {
                0
            };
            &&& blocks.len() + ahead > 0 ==> output.len() == blocks.len() + ahead
            &&& ahead == 1 ==> output[0] == ContentView::Json(result.structured_content->0)
            &&& forall|i: int|
                0 <= i < blocks.len() && result.structured_content is Some && blocks[i].shape
                    == as_text && (forall|j: int|
                    0 <= j < i ==> (#[trigger] blocks[j]).shape != as_text)
                    ==> #[trigger] output[i + ahead] == ContentView::Json(
                    result.structured_content->0,
                )
            &&& forall|i: int|
                0 <= i < blocks.len() && !(result.structured_content is Some && blocks[i].shape
                    == as_text && (forall|j: int|
                    0 <= j < i ==> (#[trigger] blocks[j]).shape != as_text)) ==> block_content(
                    blocks[i],
                ) == Ok::<ContentView, ErrorView>(#[trigger] output[i + ahead])
            &&& blocks.len() + ahead == 0 ==> output == seq![
                ContentView::Text(
                    if result.is_error == Some(true) {
                        "the MCP tool reported an error"@
                    } else {
                        ""@
                    },
                ),
            ]
        }),
{
    let output = result_output(result)->Ok_0;
    let blocks = result.content;
    let structured = result.structured_content;
    let as_text = BlockShapeView::Text(structured->0);
    let repeated = structured is Some && exists|i: int|
        0 <= i < blocks.len() && (#[trigger] blocks[i]).shape == as_text;
    let shown = shown_blocks(blocks, structured, blocks.len())->Ok_0;
    shown_blocks_keep_their_places(blocks, structured, blocks.len());
    if repeated {
        let i = choose|i: int| 0 <= i < blocks.len() && (#[trigger] blocks[i]).shape == as_text;
        assert(is_fallback(blocks[i], structured));
    }
    assert(repeated == has_fallback(blocks, structured));
    let ahead: int = if structured is Some && !repeated {
        1
    } else {
        0
    };
    assert forall|i: int| 0 <= i < blocks.len() implies #[trigger] is_first_fallback(
        blocks,
        structured,
        i,
    ) == (structured is Some && blocks[i].shape == as_text && (forall|j: int|
        0 <= j < i ==> (#[trigger] blocks[j]).shape != as_text)) by {
        if structured is Some && blocks[i].shape == as_text && (forall|j: int|
            0 <= j < i ==> (#[trigger] blocks[j]).shape != as_text) {
            assert forall|j: int| 0 <= j < i implies !is_fallback(
                #[trigger] blocks[j],
                structured,
            ) by {}
        }
    }
    assert forall|i: int| 0 <= i < blocks.len() implies #[trigger] output[i + ahead]
        == shown[i] by {}
    assert forall|i: int|
        0 <= i < blocks.len() && is_first_fallback(blocks, structured, i) implies #[trigger] output[i
        + ahead] == ContentView::Json(structured->0) by {
        assert(shown[i] == ContentView::Json(structured->0));
    }
    assert forall|i: int|
        0 <= i < blocks.len() && !is_first_fallback(blocks, structured, i) implies block_content(
        blocks[i],
    ) == Ok::<ContentView, ErrorView>(#[trigger] output[i + ahead]) by {
        assert(block_content(blocks[i]) == Ok::<ContentView, ErrorView>(shown[i]));
    }
}

/// A result that can be shown has an error if and only if the tool reports one, whatever it shows
/// and whether it is structured or not; what it shows stays the same either way. The error is the
/// tool's own, and names the tool where its name is known. A result that cannot be shown fails for
/// the reason for which it cannot.
pub proof fn error_reports_are_never_lost(
    result: CallToolResultView,
    tool_name: Option<Seq<char>>,
)
    ensures
        result_output(result) matches Ok(output) ==> {
            let reported = final_result(result, tool_name);
            &&& reported is Ok
            &&& reported->Ok_0.output == output
            &&& reported->Ok_0.error is Some <==> result.is_error == Some(true)
            &&& reported->Ok_0.error matches Some(error) ==> {
                &&& error.kind is Other
                &&& error.code is None && error.retryable is None && error.cause is None
                &&& tool_name matches Some(name) ==> error.message == "MCP tool '"@ + name
                    + "' reported an execution error"@
                &&& tool_name is None ==> error.message == "MCP tool reported an execution error"@
            }
        },
        result_output(result) matches Err(error) ==> final_result(result, tool_name) == Err::<
            ToolResultView,
            ErrorView,
        >(error),
{
}

/// A result that is kept in a context is kept whole: its structured part and its metadata replace
/// those of an earlier result only where it has any, and nothing else in the context changes.
pub proof fn kept_results_replace_nothing_else(
    context: ToolContextView,
    result: CallToolResultView,
)
    ensures
        ({
            let after = context_with_result(context, result);
            &&& after.call_result == Some(result)
            &&& result.structured_content is Some ==> after.structured == result.structured_content
            &&& result.structured_content is None ==> after.structured == context.structured
            &&& result.meta is Some ==> after.meta == result.meta
            &&& result.meta is None ==> after.meta == context.meta
            &&& after.request_meta == context.request_meta
            &&& after.task_result == context.task_result
            &&& after.created_task == context.created_task
            &&& after.input_required == context.input_required
            &&& after.task_info == context.task_info
        }),
{
}

} // verus!

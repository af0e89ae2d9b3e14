use rig_tasks::content::{
    content_block, decode_call_result, mcp_call_result, mcp_content_block_to_tool_content,
    mcp_result_output, preserve_mcp_result,
};
use rig_tasks::error::ToolErrorKind;
use rig_tasks::json::Json;
use rig_tasks::model::{
    BlockShape, CallToolResult as LibraryResult, ContentBlock as LibraryBlock, Rendering,
};
use rig_tasks::output::{ImageMediaType, ToolOutput, ToolResultContent};
use rig_tasks::result::ToolContext;
use rmcp::model::{CallToolResult, ContentBlock, Resource, ResourceContents};

fn value(text: &str) -> serde_json::Value {
    serde_json::from_str(text).expect("fixture JSON")
}

fn json(value: &serde_json::Value) -> Json {
    Json::from_compact(value.to_string())
}

fn library(result: &CallToolResult) -> LibraryResult {
    let rendered = serde_json::to_value(result).expect("MCP result is JSON serializable");
    decode_call_result(&json(&rendered)).expect("MCP result reads back")
}

fn show(output: &ToolOutput) -> String {
    format!("{output:?}")
}

fn json_of(content: &ToolResultContent) -> serde_json::Value {
    match content {
        ToolResultContent::Json(found) => value(&found.text),
        other => panic!("expected JSON, got {other:?}"),
    }
}

fn text_block(text: &str) -> LibraryBlock {
    LibraryBlock {
        shape: BlockShape::Text(text.to_owned()),
        json: Rendering::Value(Json::from_compact("{}".to_owned())),
    }
}

#[test]
fn model_presentation_preserves_unrepresentable_mcp_blocks_as_json() {
    let blocks = vec![
        ContentBlock::resource(ResourceContents::TextResourceContents {
            uri: "file:///reports/summary.txt".to_string(),
            mime_type: Some("text/plain".to_string()),
            text: "full report".to_string(),
            meta: None,
        }),
        ContentBlock::resource(ResourceContents::BlobResourceContents {
            uri: "file:///reports/raw.bin".to_string(),
            mime_type: Some("application/octet-stream".to_string()),
            blob: "AAEC".to_string(),
            meta: None,
        }),
        ContentBlock::audio("UklGRg==", "audio/wav"),
        ContentBlock::resource_link(
            Resource::new("file:///reports/linked.txt", "linked.txt").with_mime_type("text/plain"),
        ),
        ContentBlock::image("YXZpZg==", "image/avif"),
        ContentBlock::resource(ResourceContents::BlobResourceContents {
            uri: "file:///images/chart.avif".to_string(),
            mime_type: Some("image/avif".to_string()),
            blob: "YmxvYi1hdmlm".to_string(),
            meta: None,
        }),
    ];
    let expected = blocks
        .iter()
        .map(|block| serde_json::to_value(block).expect("MCP block is JSON serializable"))
        .collect::<Vec<_>>();

    let result = library(&CallToolResult::success(blocks));
    let content = mcp_result_output(&result)
        .expect("MCP content mapping")
        .content;

    assert_eq!(content.len(), expected.len());
    for (shown, wanted) in content.iter().zip(expected.iter()) {
        assert_eq!(&json_of(shown), wanted);
    }
    let first = json_of(&content[0]);
    assert!(
        first["resource"]["uri"] == "file:///reports/summary.txt"
            && first["resource"]["mimeType"] == "text/plain"
            && first["resource"]["text"] == "full report"
    );
    let second = json_of(&content[1]);
    assert!(
        second["resource"]["uri"] == "file:///reports/raw.bin"
            && second["resource"]["mimeType"] == "application/octet-stream"
            && second["resource"]["blob"] == "AAEC"
    );
    let third = json_of(&content[2]);
    assert!(third["mimeType"] == "audio/wav" && third["data"] == "UklGRg==");
    let fifth = json_of(&content[4]);
    assert!(fifth["mimeType"] == "image/avif" && fifth["data"] == "YXZpZg==");
    let sixth = json_of(&content[5]);
    assert!(
        sixth["resource"]["uri"] == "file:///images/chart.avif"
            && sixth["resource"]["mimeType"] == "image/avif"
            && sixth["resource"]["blob"] == "YmxvYi1hdmlm"
    );
}

#[test]
fn image_resource_blob_maps_to_an_image_block() {
    let result = library(&CallToolResult::success(vec![ContentBlock::resource(
        ResourceContents::BlobResourceContents {
            uri: "file:///images/chart.png".to_string(),
            mime_type: Some("image/png".to_string()),
            blob: "aW1hZ2U=".to_string(),
            meta: None,
        },
    )]));

    assert_eq!(
        show(&mcp_result_output(&result).expect("MCP content mapping")),
        show(&ToolOutput::one(ToolResultContent::Image {
            data: "aW1hZ2U=".to_owned(),
            media_type: Some(ImageMediaType::PNG),
        }))
    );
}

#[test]
fn string_valued_structured_content_remains_json() {
    let mut result = CallToolResult::structured(value("\"forty-two\""));
    result.content.clear();

    assert_eq!(
        show(&mcp_result_output(&library(&result)).expect("MCP content mapping")),
        show(&ToolOutput::json(json(&value("\"forty-two\""))))
    );
}

#[test]
fn structured_constructors_replace_their_canonical_text_fallback() {
    let answer = value("{\"answer\": 42}");
    for result in [
        CallToolResult::structured(answer.clone()),
        CallToolResult::structured_error(answer.clone()),
    ] {
        assert_eq!(
            show(&mcp_result_output(&library(&result)).expect("MCP structured output")),
            show(&ToolOutput::json(json(&answer)))
        );
    }
}

#[test]
fn structured_content_is_kept_alongside_real_rich_blocks() {
    let answer = value("{\"answer\": 42}");
    let mut result = CallToolResult::structured(answer.clone());
    result
        .content
        .push(ContentBlock::image("aW1hZ2U=", "image/png"));
    result
        .content
        .push(ContentBlock::text("human-readable note"));

    let expected = vec![
        ToolResultContent::Json(json(&answer)),
        ToolResultContent::Image {
            data: "aW1hZ2U=".to_owned(),
            media_type: Some(ImageMediaType::PNG),
        },
        ToolResultContent::Text("human-readable note".to_owned()),
    ];
    assert_eq!(
        show(&mcp_result_output(&library(&result)).expect("MCP structured rich output")),
        show(&ToolOutput::content(expected))
    );
}

#[test]
fn structured_result_without_repetition_comes_first() {
    let result = LibraryResult {
        content: vec![text_block("before"), text_block("after")],
        structured_content: Some(Json::from_compact("{\"answer\":42}".to_owned())),
        is_error: None,
        meta: None,
    };
    assert_eq!(
        show(&mcp_result_output(&result).expect("output")),
        show(&ToolOutput::content(vec![
            ToolResultContent::Json(Json::from_compact("{\"answer\":42}".to_owned())),
            ToolResultContent::Text("before".to_owned()),
            ToolResultContent::Text("after".to_owned()),
        ]))
    );
}

#[test]
fn only_the_first_repetition_is_replaced() {
    let result = LibraryResult {
        content: vec![text_block("7"), text_block("7")],
        structured_content: Some(Json::from_compact("7".to_owned())),
        is_error: None,
        meta: None,
    };
    assert_eq!(
        show(&mcp_result_output(&result).expect("output")),
        show(&ToolOutput::content(vec![
            ToolResultContent::Json(Json::from_compact("7".to_owned())),
            ToolResultContent::Text("7".to_owned()),
        ]))
    );
}

#[test]
fn empty_results_become_one_text() {
    let mut result = LibraryResult {
        content: vec![],
        structured_content: None,
        is_error: None,
        meta: None,
    };
    assert_eq!(mcp_result_output(&result).expect("output").as_text(), Some(""));
    result.is_error = Some(true);
    assert_eq!(
        mcp_result_output(&result).expect("output").as_text(),
        Some("the MCP tool reported an error")
    );
}

#[test]
fn blocks_that_cannot_be_rendered_are_a_provider_failure() {
    let block = content_block(Rendering::Failed("no such luck".to_owned()));
    let error = mcp_content_block_to_tool_content(&block).expect_err("nothing to show");
    assert_eq!(error.kind(), ToolErrorKind::Provider);
    assert_eq!(
        error.message(),
        "failed to preserve an MCP content block as JSON: no such luck"
    );
    let result = LibraryResult {
        content: vec![text_block("fine"), block],
        structured_content: None,
        is_error: None,
        meta: None,
    };
    assert!(mcp_result_output(&result).is_err());
}

#[test]
fn block_shapes_are_read_from_json() {
    let shape = |block: ContentBlock| {
        let rendered = serde_json::to_value(&block).expect("block");
        format!("{:?}", content_block(Rendering::Value(json(&rendered))).shape)
    };
    assert_eq!(
        shape(ContentBlock::text("hello")),
        format!("{:?}", BlockShape::Text("hello".to_owned()))
    );
    assert_eq!(
        shape(ContentBlock::image("AA==", "image/gif")),
        format!(
            "{:?}",
            BlockShape::Image {
                data: "AA==".to_owned(),
                mime_type: "image/gif".to_owned(),
            }
        )
    );
    assert_eq!(shape(ContentBlock::audio("AA==", "audio/wav")), "Other");
    assert_eq!(
        format!(
            "{:?}",
            content_block(Rendering::Value(Json::from_compact("17".to_owned()))).shape
        ),
        "Other"
    );
}

#[test]
fn all_image_types_are_known() {
    for (mime, expected) in [
        ("image/jpeg", Some(ImageMediaType::JPEG)),
        ("image/png", Some(ImageMediaType::PNG)),
        ("image/gif", Some(ImageMediaType::GIF)),
        ("image/webp", Some(ImageMediaType::WEBP)),
        ("image/heic", Some(ImageMediaType::HEIC)),
        ("image/heif", Some(ImageMediaType::HEIF)),
        ("image/svg+xml", Some(ImageMediaType::SVG)),
        ("image/avif", None),
        ("text/plain", None),
    ] {
        assert_eq!(ImageMediaType::from_mime_type(mime), expected, "{mime}");
    }
}

#[test]
fn canonical_dispatch_preserves_tool_reported_error_message() {
    let result = library(&CallToolResult::error(vec![ContentBlock::text(
        "tool reported exact failure",
    )]));
    let outcome = mcp_call_result(&result, Some("fixture_tool")).expect("tool result");
    let error = outcome.error().expect("tool error");
    assert_eq!(error.kind(), ToolErrorKind::Other);
    assert_eq!(outcome.output().as_text(), Some("tool reported exact failure"));
    assert_eq!(
        error.message(),
        "MCP tool 'fixture_tool' reported an execution error"
    );
    let nameless = mcp_call_result(&result, None).expect("tool result");
    assert_eq!(
        nameless.error().expect("tool error").message(),
        "MCP tool reported an execution error"
    );
}

#[test]
fn results_are_kept_in_the_context() {
    let mut response = CallToolResult::success(vec![ContentBlock::text("before")]);
    response.structured_content = Some(value("{\"answer\": 42, \"source\": \"fixture\"}"));
    let mut meta = rmcp::model::MetaObject::default();
    meta.0.insert("response-id".into(), value("\"response-123\""));
    response.meta = Some(meta);
    let result = library(&response);

    let mut context = ToolContext::new();
    preserve_mcp_result(&mut context, &result);
    assert_eq!(
        value(&context.structured.expect("structured").text),
        value("{\"answer\": 42, \"source\": \"fixture\"}")
    );
    let meta = context.meta.expect("meta");
    assert_eq!(
        meta.member("response-id").and_then(|id| id.as_string()),
        Some("response-123".to_owned())
    );
    assert_eq!(context.call_result.expect("raw result").content.len(), 1);
}

#[test]
fn unreadable_results_are_refused() {
    for text in ["{}", "{\"content\":7}", "[]"] {
        let complaint = serde_json::from_value::<CallToolResult>(value(text))
            .expect_err("no result")
            .to_string();
        assert_eq!(
            decode_call_result(&Json::from_compact(text.to_owned())).expect_err("refused"),
            complaint
        );
    }
    assert!(decode_call_result(&Json::from_compact("{".to_owned())).is_err());
}

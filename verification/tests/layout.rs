//! Uncacheable blocks in layout XML.

use mdoctor::layout::{
    collect_blocks, count_open_elements, parse_layout_xml_str, read_layout, LayoutNode,
    MAX_OPEN_ELEMENTS,
};

#[test]
fn test_parse_uncacheable_block_in_layout() {
    let xml = r#"<?xml version="1.0"?>
<page xmlns:xsi="http://www.w3.org/2001/XMLSchema-instance" xsi:noNamespaceSchemaLocation="urn:magento:framework:View/Layout/etc/page_configuration.xsd">
    <body>
        <referenceContainer name="content">
            <block class="Vendor\SocialShare\Block\Buttons" name="social.share.buttons" template="buttons.phtml" cacheable="false" />
        </referenceContainer>
    </body>
</page>"#;

    let path = "view/frontend/layout/catalog_product_view.xml";
    let blocks = parse_layout_xml_str(xml, path, "Vendor_SocialShare");
    assert_eq!(blocks.len(), 1);
    assert_eq!(blocks[0].block_name, "social.share.buttons");
    assert_eq!(blocks[0].class_name.as_deref(), Some("Vendor\\SocialShare\\Block\\Buttons"));
    assert_eq!(blocks[0].layout_handle, "catalog_product_view");
    assert_eq!(blocks[0].module, "Vendor_SocialShare");
    assert_eq!(blocks[0].template.as_deref(), Some("buttons.phtml"));
    assert_eq!(blocks[0].line, 5);
    assert_eq!(blocks[0].source_file, path);
}

#[test]
fn only_blocks_that_say_false_are_reported() {
    let xml = r#"<page>
<block name="a" cacheable="true"/>
<block name="b"/>
<container name="c" cacheable="false"/>
<block cacheable=" FALSE "/>
</page>"#;
    let blocks = parse_layout_xml_str(xml, "default.xml", "M");
    assert_eq!(blocks.len(), 1);
    assert_eq!(blocks[0].block_name, "unnamed_block");
    assert_eq!(blocks[0].class_name, None);
    assert_eq!(blocks[0].line, 5);
}

#[test]
fn text_that_is_no_xml_has_no_blocks() {
    assert!(parse_layout_xml_str("<page>", "a.xml", "M").is_empty());
    assert!(parse_layout_xml_str("", "a.xml", "M").is_empty());
}

#[test]
fn a_path_without_a_file_has_no_handle() {
    let node = LayoutNode {
        tag: "block".into(),
        values: vec![Some("false".into())],
        line: 3,
    };
    let blocks = collect_blocks(&vec![node], "..", "M");
    assert_eq!(blocks[0].layout_handle, "unknown");
    assert_eq!(blocks[0].block_name, "unnamed_block");
}

/// A block under so many open elements.
fn nested(depth: usize) -> String {
    format!(
        "{}<block name=\"b\" cacheable=\"false\"/>{}",
        "<a>".repeat(depth),
        "</a>".repeat(depth)
    )
}

#[test]
fn a_text_that_nests_too_deep_is_told_apart() {
    let deepest = nested(MAX_OPEN_ELEMENTS - 1);
    assert_eq!(count_open_elements(&deepest), MAX_OPEN_ELEMENTS);
    assert_eq!(parse_layout_xml_str(&deepest, "a.xml", "M").len(), 1);
    assert_eq!(read_layout(&deepest, "a.xml", "M").map(|b| b.len()), Some(1));
    assert!(read_layout(&nested(MAX_OPEN_ELEMENTS), "a.xml", "M").is_none());
    assert!(read_layout(&nested(100_000), "a.xml", "M").is_none());
    assert_eq!(read_layout("<page/>", "a.xml", "M").map(|b| b.len()), Some(0));
    assert_eq!(read_layout("<page>", "a.xml", "M").map(|b| b.len()), Some(0));
}

#[test]
fn many_elements_side_by_side_are_read() {
    let one = "<block cacheable=\"false\" name='a/>'><x/></block>";
    let xml = format!("<page>{}</page>", one.repeat(3000));
    assert_eq!(count_open_elements(&xml), 3);
    assert_eq!(parse_layout_xml_str(&xml, "a.xml", "M").len(), 3000);
}

#[test]
fn what_is_no_markup_closes_nothing() {
    assert_eq!(count_open_elements("<a><!-- </a></a> --><b/></a>"), 2);
    assert_eq!(count_open_elements("<a><![CDATA[</a>/>]]><b></b></a>"), 2);
    assert_eq!(count_open_elements("<?xml version=\"1.0\"?><a><?p </a> ?><b x='/>'></b></a>"), 2);
    assert_eq!(count_open_elements("<!DOCTYPE a><a><a><a>"), 0);
    assert_eq!(count_open_elements("<a><b x=\"1>\"><c"), 3);
    assert_eq!(count_open_elements("no markup"), 0);
}

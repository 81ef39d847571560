//! Layout XML parser detecting uncacheable blocks (`cacheable="false"`).

use crate::model::{self, UncacheableBlock, UncacheableBlockView};
use crate::paths::{self, file_stem};
use crate::patterns;
use crate::text::{
    self, chars_of, copy_opt, eq_ignore_ascii_case, find_chars, next_in, occurs, same, trim,
    CharSet,
};
use vstd::prelude::*;
use vstd::string::*;

verus! {

/// The tag of a block.
pub const BLOCK_TAG: &'static str = "block";

/// One node of a layout document.
#[derive(Debug, Clone)]
pub struct LayoutNode {
    /// The local name of an element; empty for a node of another kind.
    pub tag: String,
    /// The values of the attributes that were asked for, in their order.
    pub values: Vec<Option<String>>,
    /// The line on which the node starts, counted from one.
    pub line: u64,
}

/// What a [`LayoutNode`] holds.
pub struct LayoutNodeView {
    pub tag: Seq<char>,
    pub values: Seq<Option<Seq<char>>>,
    pub line: u64,
}

impl View for LayoutNode {
    type V = LayoutNodeView;

    open spec fn view(&self) -> LayoutNodeView {
        LayoutNodeView { tag: self.tag@, values: patterns::group_texts(self.values@), line: self.line }
    }
}

/// What a list of nodes holds.
pub open spec fn node_views(nodes: Seq<LayoutNode>) -> Seq<LayoutNodeView> {
    Seq::new(nodes.len(), |i: int| nodes[i]@)
}

/// What the nodes of a document hold, if it could be read.
pub open spec fn document_nodes(d: Option<Vec<LayoutNode>>) -> Option<Seq<LayoutNodeView>> {
    match d {
        Some(nodes) => Some(node_views(nodes@)),
        None => None,
    }
}

/// How many elements of a document may be open at once, by the stack that they take. The
/// parser calls itself for each, and in an unoptimised build the two frames of one element
/// come to about 6 KiB: on the 2 MiB that the standard library gives a thread, 345 nested
/// elements were read and 355 were not. So 256 take 1.5 MiB of the smallest stack that the
/// parser is likely to find, and leave a quarter of it to the callers.
pub const MAX_OPEN_ELEMENTS: usize = 256;

/// The position just past the next occurrence of a text, or the end.
pub open spec fn past(s: Seq<char>, p: Seq<char>, from: int) -> int {
    match text::find_from(s, p, from) {
        Some(i) => i + p.len(),
        None => s.len() as int,
    }
}

fn find_past(chars: &Vec<char>, p: &str, from: usize) -> (r: usize)
    requires
        from <= chars@.len(),
    ensures
        r == past(chars@, p@, from as int),
        from <= r <= chars@.len(),
{
    let n: usize = chars.len();
    let pc = chars_of(p);
    match find_chars(chars, &pc, from) {
        Some(i) => i + pc.len(),
        None => n,
    }
}

fn stands_at(chars: &Vec<char>, p: &str, i: usize) -> (r: bool)
    requires
        i <= chars@.len(),
    ensures
        r == text::occurs_at(chars@, p@, i as int),
{
    let pc = chars_of(p);
    pc.len() <= chars.len() - i && occurs(chars, &pc, i)
}

/// The position of the `>` that ends a tag, or the end of the text: one between quotes does
/// not count.
pub open spec fn tag_end(s: Seq<char>, i: int, quote: Option<char>) -> int
    decreases s.len() - i,
{
    if i < 0 || i >= s.len() {
        s.len() as int
    } else {
        match quote {
            Some(q) => tag_end(
                s,
                i + 1,
                if s[i] == q {
                    None
                } else {
                    quote
                },
            ),
            None => if s[i] == '>' {
                i
            } else if s[i] == '"' || s[i] == '\'' {
                tag_end(s, i + 1, Some(s[i]))
            } else {
                tag_end(s, i + 1, None)
            },
        }
    }
}

fn find_tag_end(chars: &Vec<char>, from: usize) -> (r: usize)
    requires
        from <= chars@.len(),
    ensures
        r == tag_end(chars@, from as int, None),
        from <= r <= chars@.len(),
{
    let mut i: usize = from;
    let mut quote: Option<char> = None;
    while i < chars.len()
        invariant
            from <= i <= chars@.len(),
            tag_end(chars@, from as int, None) == tag_end(chars@, i as int, quote),
        decreases chars@.len() - i,
    {
        let c = chars[i];
        match quote {
            Some(q) => {
                if c == q {
                    quote = None;
                }
            },
            None => {
                if c == '>' {
                    return i;
                }
                if c == '"' || c == '\'' {
                    quote = Some(c);
                }
            },
        }
        i += 1;
    }
    i
}

/// What one piece of markup, which begins at `j`, does to the elements that are open and to
/// the most that were open at once; first the position behind it. Nothing inside a comment, a
/// CDATA section or a processing instruction is markup. A declaration ends the walk: the
/// parser refuses a text with one, so that no entity brings in elements of its own.
pub open spec fn after_markup(s: Seq<char>, j: int, open: nat, most: nat) -> (int, nat, nat) {
    if text::occurs_at(s, "<!--"@, j) {
        (past(s, "-->"@, j + 4), open, most)
    } else if text::occurs_at(s, "<![CDATA["@, j) {
        (past(s, "]]>"@, j + 9), open, most)
    } else if text::occurs_at(s, "<?"@, j) {
        (past(s, "?>"@, j + 2), open, most)
    } else if text::occurs_at(s, "<!"@, j) {
        (s.len() as int, open, most)
    } else if text::occurs_at(s, "</"@, j) {
        (
            j + 2,
            if open > 0 {
                (open - 1) as nat
            } else {
                0
            },
            most,
        )
    } else {
        let end = tag_end(s, j + 1, None);
        let deeper = open + 1;
        let reached = if deeper > most {
            deeper
        } else {
            most
        };
        if end >= s.len() {
            (s.len() as int, deeper, reached)
        } else if s[end - 1] == '/' {
            (end + 1, open, reached)
        } else {
            (end + 1, deeper, reached)
        }
    }
}

/// The most elements open at once from a position on, with so many open there, and so many
/// reached before.
pub open spec fn open_elements_from(s: Seq<char>, i: int, open: nat, most: nat) -> nat
    decreases s.len() - i,
{
    let j = text::next_member(s, CharSet::One('<'), i);
    if !(0 <= i <= j < s.len()) {
        most
    } else {
        let (next, now, reached) = after_markup(s, j, open, most);
        if j < next <= s.len() {
            open_elements_from(s, next, now, reached)
        } else {
            reached
        }
    }
}

/// How many elements of a text are open at once, at most: as many as its tags leave open in
/// a well-formed document, and no fewer than a parser gets to in any other text.
pub open spec fn open_elements(s: Seq<char>) -> nat {
    open_elements_from(s, 0, 0, 0)
}

/// Counts how many elements of a text are open at once.
pub fn count_open_elements(content: &str) -> (r: usize)
    ensures
        r == open_elements(content@),
{
    proof {
        reveal_strlit("<!--");
        reveal_strlit("<![CDATA[");
        reveal_strlit("<?");
        reveal_strlit("</");
    }
    let chars = chars_of(content);
    let n: usize = chars.len();
    let mut i: usize = 0;
    let mut open: usize = 0;
    let mut most: usize = 0;
    while i < n
        invariant
            i <= n == chars@.len(),
            chars@ == content@,
            open <= i,
            most <= i,
            "<!--"@.len() == 4,
            "<![CDATA["@.len() == 9,
            "<?"@.len() == 2,
            "</"@.len() == 2,
            open_elements(content@) == open_elements_from(
                content@,
                i as int,
                open as nat,
                most as nat,
            ),
        decreases n - i,
    {
        let j = next_in(&chars, CharSet::One('<'), i);
        if j == n {
            return most;
        }
        if stands_at(&chars, "<!--", j) {
            i = find_past(&chars, "-->", j + 4);
        } else if stands_at(&chars, "<![CDATA[", j) {
            i = find_past(&chars, "]]>", j + 9);
        } else if stands_at(&chars, "<?", j) {
            i = find_past(&chars, "?>", j + 2);
        } else if stands_at(&chars, "<!", j) {
            i = n;
        } else if stands_at(&chars, "</", j) {
            if open > 0 {
                open -= 1;
            }
            i = j + 2;
        } else {
            let end = find_tag_end(&chars, j + 1);
            let deeper: usize = open + 1;
            if deeper > most {
                most = deeper;
            }
            if end == n {
                open = deeper;
                i = n;
            } else {
                if chars[end - 1] != '/' {
                    open = deeper;
                }
                i = end + 1;
            }
        }
    }
    most
}

/// The nodes of an XML document in document order, as `roxmltree` reads it.
pub uninterp spec fn xml_nodes(text: Seq<char>, attributes: Seq<Seq<char>>) -> Option<
    Seq<LayoutNodeView>,
>;

/// `roxmltree::Document::parse`, then `Document::descendants` with, on each node,
/// `Node::tag_name`, `Node::attribute` for each name and `Document::text_pos_at` of where it
/// starts: every node of the document in document order, with one value for each name, `None`
/// where the node has no attribute of that name outside any namespace. `None` for text that
/// is no well-formed document. The grammar is left to the crate: the nodes are only named.
/// The crate recurses once for each element that is open, without a limit of its own, so no
/// more than [`MAX_OPEN_ELEMENTS`] may be.
#[verifier::external_body]
pub(crate) fn read_nodes(text: &str, attributes: &Vec<String>) -> (r: Option<Vec<LayoutNode>>)
    requires
        open_elements(text@) <= MAX_OPEN_ELEMENTS,
    ensures
        document_nodes(r) == xml_nodes(text@, text::texts(attributes@)),
{
    let doc = roxmltree::Document::parse(text).ok()?;
    Some(doc.descendants().map(|n| LayoutNode {
        tag: n.tag_name().name().to_string(),
        values: attributes.iter().map(
            |a| n.attribute(a.as_str()).map(|v| v.to_string()),
        ).collect(),
        line: u64::from(doc.text_pos_at(n.range().start).row),
    }).collect())
}

/// The value at a place, if there is one.
pub open spec fn value_at(values: Seq<Option<Seq<char>>>, i: int) -> Option<Seq<char>> {
    if i < values.len() {
        values[i]
    } else {
        None
    }
}

fn get_value(node: &LayoutNode, i: usize) -> (r: Option<String>)
    ensures
        text::text_opt(r) == value_at(node@.values, i as int),
{
    if i < node.values.len() {
        copy_opt(&node.values[i])
    } else {
        None
    }
}

/// The attributes that matter of a block.
pub open spec fn block_attributes() -> Seq<Seq<char>> {
    seq!["cacheable"@, "name"@, "class"@, "template"@]
}

/// Whether a node is a block that declares `cacheable="false"`.
pub open spec fn is_uncacheable(node: LayoutNodeView) -> bool {
    node.tag == BLOCK_TAG@ && match value_at(node.values, 0) {
        Some(v) => text::ascii_lower(text::trimmed(v)) == text::ascii_lower("false"@),
        None => false,
    }
}

/// The layout handle of a file.
pub open spec fn handle_of(path: Seq<char>) -> Seq<char> {
    text::text_or(paths::file_stem_of(path), "unknown"@)
}

/// The uncacheable block that a node declares.
pub open spec fn block_of(
    node: LayoutNodeView,
    path: Seq<char>,
    module: Seq<char>,
) -> UncacheableBlockView {
    UncacheableBlockView {
        module,
        layout_handle: handle_of(path),
        block_name: text::text_or(value_at(node.values, 1), "unnamed_block"@),
        class_name: value_at(node.values, 2),
        template: value_at(node.values, 3),
        source_file: path,
        line: node.line,
    }
}

/// The uncacheable blocks among nodes, in document order.
pub open spec fn blocks_of(
    nodes: Seq<LayoutNodeView>,
    path: Seq<char>,
    module: Seq<char>,
) -> Seq<UncacheableBlockView>
    decreases nodes.len(),
{
    if nodes.len() == 0 {
        Seq::empty()
    } else {
        let before = blocks_of(nodes.drop_last(), path, module);
        if is_uncacheable(nodes.last()) {
            before.push(block_of(nodes.last(), path, module))
        } else {
            before
        }
    }
}

fn declares_uncacheable(node: &LayoutNode) -> (r: bool)
    ensures
        r == is_uncacheable(node@),
{
    if !same(&node.tag, BLOCK_TAG) {
        return false;
    }
    match get_value(node, 0) {
        Some(v) => eq_ignore_ascii_case(&trim(&v), "false"),
        None => false,
    }
}

/// Collects the uncacheable blocks among the nodes of a layout file.
pub fn collect_blocks(nodes: &Vec<LayoutNode>, file_path: &str, module_name: &str) -> (r: Vec<
    UncacheableBlock,
>)
    ensures
        model::block_views(r@) == blocks_of(node_views(nodes@), file_path@, module_name@),
{
    let layout_handle = match file_stem(file_path) {
        Some(stem) => stem,
        None => "unknown".to_owned(),
    };
    let ghost all = node_views(nodes@);
    let mut out: Vec<UncacheableBlock> = Vec::new();
    let mut i: usize = 0;
    assert(model::block_views(out@) =~= blocks_of(all.take(0), file_path@, module_name@));
    while i < nodes.len()
        invariant
            i <= nodes@.len(),
            all == node_views(nodes@),
            layout_handle@ == handle_of(file_path@),
            model::block_views(out@) == blocks_of(all.take(i as int), file_path@, module_name@),
        decreases nodes@.len() - i,
    {
        let node = &nodes[i];
        assert(all.take(i + 1).drop_last() =~= all.take(i as int));
        assert(all.take(i + 1).last() == node@);
        if declares_uncacheable(node) {
            let block_name = match get_value(node, 1) {
                Some(name) => name,
                None => "unnamed_block".to_owned(),
            };
            let ghost before = out@;
            let block = UncacheableBlock {
                module: module_name.to_owned(),
                layout_handle: layout_handle.clone(),
                block_name,
                class_name: get_value(node, 2),
                template: get_value(node, 3),
                source_file: file_path.to_owned(),
                line: node.line,
            };
            out.push(block);
            assert(model::block_views(out@) =~= model::block_views(before).push(block@));
        }
        i += 1;
    }
    assert(all.take(i as int) =~= all);
    out
}

/// The uncacheable blocks of a layout file; none for text that is no XML.
pub open spec fn layout_blocks(content: Seq<char>, path: Seq<char>, module: Seq<char>) -> Seq<
    UncacheableBlockView,
> {
    match xml_nodes(content, block_attributes()) {
        Some(nodes) => blocks_of(nodes, path, module),
        None => Seq::empty(),
    }
}

/// Parses layout XML and returns the blocks declaring `cacheable="false"`. A text that nests
/// deeper than the stack holds has no answer here: [`read_layout`] tells it apart.
pub fn parse_layout_xml_str(content: &str, file_path: &str, module_name: &str) -> (r: Vec<
    UncacheableBlock,
>)
    requires
        open_elements(content@) <= MAX_OPEN_ELEMENTS,
    ensures
        model::block_views(r@) == layout_blocks(content@, file_path@, module_name@),
{
    let attributes: Vec<String> = vec![
        "cacheable".to_owned(),
        "name".to_owned(),
        "class".to_owned(),
        "template".to_owned(),
    ];
    assert(text::texts(attributes@) =~= block_attributes());
    match read_nodes(content, &attributes) {
        Some(nodes) => collect_blocks(&nodes, file_path, module_name),
        None => {
            let none: Vec<UncacheableBlock> = Vec::new();
            assert(model::block_views(none@) =~= Seq::<UncacheableBlockView>::empty());
            none
        },
    }
}

/// Reads the uncacheable blocks of a layout text, or says with `None` that it nests too deep
/// to be read.
pub fn read_layout(content: &str, file_path: &str, module_name: &str) -> (r: Option<
    Vec<UncacheableBlock>,
>)
    ensures
        r is None <==> open_elements(content@) > MAX_OPEN_ELEMENTS,
        r matches Some(blocks) ==> model::block_views(blocks@) == layout_blocks(
            content@,
            file_path@,
            module_name@,
        ),
{
    if count_open_elements(content) > MAX_OPEN_ELEMENTS {
        None
    } else {
        Some(parse_layout_xml_str(content, file_path, module_name))
    }
}

/// A block is reported exactly when some node declares it uncacheable, always under the
/// module and the file that were asked about.
pub proof fn law_every_puncture_is_reported(
    nodes: Seq<LayoutNodeView>,
    path: Seq<char>,
    module: Seq<char>,
)
    ensures
        forall|i: int|
            0 <= i < nodes.len() && is_uncacheable(#[trigger] nodes[i]) ==> blocks_of(
                nodes,
                path,
                module,
            ).contains(block_of(nodes[i], path, module)),
        forall|b: UncacheableBlockView| #[trigger]
            blocks_of(nodes, path, module).contains(b) ==> exists|i: int|
                0 <= i < nodes.len() && is_uncacheable(#[trigger] nodes[i]) && b == block_of(
                    nodes[i],
                    path,
                    module,
                ),
    decreases nodes.len(),
{
    if nodes.len() > 0 {
        let init = nodes.drop_last();
        let before = blocks_of(init, path, module);
        let now = blocks_of(nodes, path, module);
        law_every_puncture_is_reported(init, path, module);
        assert forall|b: UncacheableBlockView| before.contains(b) implies #[trigger] now.contains(
            b,
        ) by {
            let k = choose|k: int| 0 <= k < before.len() && before[k] == b;
            assert(now[k] == b);
        }
        assert forall|i: int| 0 <= i < nodes.len() && is_uncacheable(
            #[trigger] nodes[i],
        ) implies now.contains(block_of(nodes[i], path, module)) by {
            if i < init.len() {
                assert(init[i] == nodes[i]);
                assert(before.contains(block_of(init[i], path, module)));
            } else {
                assert(now.last() == block_of(nodes[i], path, module));
            }
        }
        assert forall|b: UncacheableBlockView| #[trigger] now.contains(b) implies exists|i: int|
            0 <= i < nodes.len() && is_uncacheable(#[trigger] nodes[i]) && b == block_of(
                nodes[i],
                path,
                module,
            ) by {
            let k = choose|k: int| 0 <= k < now.len() && now[k] == b;
            if k < before.len() {
                assert(before[k] == b);
                assert(before.contains(b));
                let i = choose|i: int|
                    0 <= i < init.len() && is_uncacheable(#[trigger] init[i]) && b == block_of(
                        init[i],
                        path,
                        module,
                    );
                assert(nodes[i] == init[i]);
            } else {
                assert(nodes[nodes.len() - 1] == nodes.last());
            }
        }
    }
}

/// A node is reported exactly where it is a block whose `cacheable` is false, letter case
/// and white space aside; the nodes are taken in order.
pub proof fn law_uncacheable_nodes(
    nodes: Seq<LayoutNodeView>,
    node: LayoutNodeView,
    path: Seq<char>,
    module: Seq<char>,
)
    ensures
        ({
            let before = blocks_of(nodes, path, module);
            let after = blocks_of(nodes.push(node), path, module);
            let counts = node.tag == "block"@ && node.values.len() > 0 && node.values[0] is Some
                && text::ascii_lower(text::trimmed(node.values[0]->0)) == "false"@;
            &&& !counts ==> after == before
            &&& counts ==> after.len() == before.len() + 1 && after.drop_last() == before && ({
                let b = after.last();
                &&& b.module == module
                &&& b.source_file == path
                &&& b.line == node.line
                &&& b.layout_handle == match paths::file_stem_of(path) {
                    Some(stem) => stem,
                    None => "unknown"@,
                }
                &&& b.block_name == if node.values.len() > 1 && node.values[1] is Some {
                    node.values[1]->0
                } else {
                    "unnamed_block"@
                }
                &&& b.class_name == if node.values.len() > 2 {
                    node.values[2]
                } else {
                    None
                }
                &&& b.template == if node.values.len() > 3 {
                    node.values[3]
                } else {
                    None
                }
            })
        }),
{
    reveal_strlit("false");
    assert(text::ascii_lower("false"@) =~= "false"@);
    assert(nodes.push(node).drop_last() =~= nodes);
    let before = blocks_of(nodes, path, module);
    if is_uncacheable(node) {
        assert(blocks_of(nodes.push(node), path, module).drop_last() =~= before);
    }
}

/// A layout file is read for the four attributes of a block, in this order; one that is no
/// well-formed document holds no block.
pub proof fn law_layout_attributes(content: Seq<char>, path: Seq<char>, module: Seq<char>)
    ensures
        ({
            let nodes = xml_nodes(content, seq!["cacheable"@, "name"@, "class"@, "template"@]);
            &&& nodes is None ==> layout_blocks(content, path, module).len() == 0
            &&& nodes matches Some(list) ==> layout_blocks(content, path, module) == blocks_of(
                list,
                path,
                module,
            )
        }),
{
}

} // verus!

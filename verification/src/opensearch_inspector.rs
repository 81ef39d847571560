//! OpenSearch and Elasticsearch cluster health and catalog index inspection.

use crate::endpoints::{Endpoint, EndpointView};
use crate::http_probe::{self, HttpProbeError, HttpProbeErrorView, HttpResponse, HttpResponseView};
use crate::json::{
    self, read_column, read_members, read_text_at, text_member, whole_member, JsonField,
    JsonFieldView,
};
use crate::model::{OpenSearchStatus, OpenSearchStatusView, ProbeOutcome, ProbeOutcomeView};
use crate::number::{self, num};
use crate::patterns;
use crate::text::{self, contains};
use vstd::prelude::*;
use vstd::string::*;

verus! {

/// Default OpenSearch/Elasticsearch port.
pub const DEFAULT_OPENSEARCH_PORT: u16 = 9200;

pub const HEALTH_PATH: &'static str = "/_cluster/health";

pub const INDICES_PATH: &'static str = "/_cat/indices?format=json";

pub const NO_HTTP_OVER_SOCKET: &'static str = "unix socket endpoints cannot be probed over HTTP";

pub const NOT_HEALTH: &'static str = "response is not a cluster health document";

pub const NOT_LISTING: &'static str = "response is not an index listing";

/// The low half of a count.
pub open spec fn low_half(n: Option<u64>) -> Option<u32> {
    match n {
        Some(v) => Some((v % 0x1_0000_0000) as u32),
        None => None,
    }
}

fn to_small(n: Option<u64>) -> (r: Option<u32>)
    ensures
        r == low_half(n),
{
    match n {
        Some(v) => Some((v % 0x1_0000_0000) as u32),
        None => None,
    }
}

/// What the members of a health document say of a cluster. Without a document nothing was
/// read, and the cluster counts as not reached rather than as one without data.
pub open spec fn health_of(document: Option<Seq<JsonFieldView>>) -> OpenSearchStatusView {
    let configured = OpenSearchStatusView { is_configured: true, ..OpenSearchStatusView::unset() };
    match document {
        None => configured,
        Some(fields) => OpenSearchStatusView {
            is_reachable: true,
            cluster_name: json::member_text(fields, "cluster_name"@),
            status: json::member_text(fields, "status"@),
            number_of_nodes: low_half(json::member_whole(fields, "number_of_nodes"@)),
            active_primary_shards: low_half(json::member_whole(fields, "active_primary_shards"@)),
            active_shards: low_half(json::member_whole(fields, "active_shards"@)),
            unassigned_shards: low_half(json::member_whole(fields, "unassigned_shards"@)),
            ..configured
        },
    }
}

/// Reads cluster health out of the members of a document.
pub fn read_health(document: &Option<Vec<JsonField>>) -> (r: OpenSearchStatus)
    ensures
        r@ == health_of(json::document_view(*document)),
{
    let mut status = OpenSearchStatus::default();
    status.is_configured = true;
    if let Some(fields) = document {
        status.is_reachable = true;
        status.cluster_name = text_member(fields, "cluster_name");
        status.status = text_member(fields, "status");
        status.number_of_nodes = to_small(whole_member(fields, "number_of_nodes"));
        status.active_primary_shards = to_small(whole_member(fields, "active_primary_shards"));
        status.active_shards = to_small(whole_member(fields, "active_shards"));
        status.unassigned_shards = to_small(whole_member(fields, "unassigned_shards"));
    }
    status
}

/// Parses the output of `/_cluster/health`. An empty body is a failed probe.
pub fn parse_opensearch_health_json(json_str: &str) -> (r: OpenSearchStatus)
    ensures
        r@ == health_of(json::json_members(json_str@)),
        json_str@.len() == 0 ==> r@ == health_of(None),
{
    read_health(&read_members(json_str))
}

/// Whether an index holds products or categories, whatever prefix the store is set up with.
pub open spec fn is_catalog_index(name: Seq<char>) -> bool {
    text::contains_text(name, "_product"@) || text::contains_text(name, "_category"@) || text::contains_text(
        name,
        "catalogsearch_fulltext"@,
    )
}

/// The catalog indices in a listing.
pub open spec fn catalog_indices(names: Seq<Option<Seq<char>>>) -> Seq<Seq<char>>
    decreases names.len(),
{
    if names.len() == 0 {
        Seq::empty()
    } else {
        match names.last() {
            Some(name) if is_catalog_index(name) => catalog_indices(names.drop_last()).push(name),
            _ => catalog_indices(names.drop_last()),
        }
    }
}

/// Picks the catalog indices out of a listing.
pub fn find_catalog_indices(names: &Vec<Option<String>>) -> (r: Vec<String>)
    ensures
        text::texts(r@) == catalog_indices(patterns::group_texts(names@)),
{
    broadcast use {text::lemma_texts_push, text::lemma_texts_empty};

    let ghost all = patterns::group_texts(names@);
    let mut out: Vec<String> = Vec::new();
    let mut i: usize = 0;
    while i < names.len()
        invariant
            i <= names@.len(),
            all == patterns::group_texts(names@),
            text::texts(out@) == catalog_indices(all.take(i as int)),
        decreases names@.len() - i,
    {
        assert(all.take(i + 1).drop_last() =~= all.take(i as int));
        assert(all.take(i + 1).last() == text::text_opt(names@[i as int]));
        if let Some(name) = &names[i] {
            if contains(name, "_product") || contains(name, "_category") || contains(
                name,
                "catalogsearch_fulltext",
            ) {
                out.push(name.clone());
            }
        }
        i += 1;
    }
    assert(all.take(i as int) =~= all);
    out
}

/// What a response says, or why it is of no use: no response, or one without success.
pub open spec fn useful_body(
    response: Result<HttpResponseView, HttpProbeErrorView>,
) -> Result<Seq<char>, Seq<char>> {
    match response {
        Ok(resp) => if resp.succeeded() {
            Ok(resp.body)
        } else {
            Err("HTTP "@ + number::dec(resp.status as nat))
        },
        Err(e) => Err(e.described()),
    }
}

/// The body of a successful response, or why there is none.
pub open spec fn body_view(r: Result<String, String>) -> Result<Seq<char>, Seq<char>> {
    match r {
        Ok(t) => Ok(t@),
        Err(t) => Err(t@),
    }
}

pub fn take_body(response: &Result<HttpResponse, HttpProbeError>) -> (r: Result<String, String>)
    ensures
        body_view(r) == useful_body(http_probe::response_result(*response)),
{
    match response {
        Ok(resp) => if resp.is_success() {
            Ok(resp.body.clone())
        } else {
            Err("HTTP ".to_owned().concat(num(resp.status as u64).as_str()))
        },
        Err(e) => Err(e.describe()),
    }
}

/// A cluster that was looked for but gave no health document.
pub open spec fn not_reached(reason: Seq<char>) -> OpenSearchStatusView {
    OpenSearchStatusView {
        is_configured: true,
        probe: ProbeOutcomeView::Failed { reason },
        ..OpenSearchStatusView::unset()
    }
}

/// The status with what a listing of indices says. Absence of a catalog index is a fact only
/// when the listing was read.
pub open spec fn with_listing(
    status: OpenSearchStatusView,
    listing: Result<Seq<char>, Seq<char>>,
) -> OpenSearchStatusView {
    match listing {
        Err(reason) => OpenSearchStatusView {
            catalog_index_probe: ProbeOutcomeView::Failed { reason },
            ..status
        },
        Ok(body) => match json::json_column(body, "index"@) {
            None => OpenSearchStatusView {
                catalog_index_probe: ProbeOutcomeView::Failed { reason: NOT_LISTING@ },
                ..status
            },
            Some(names) => OpenSearchStatusView {
                catalog_index_probe: ProbeOutcomeView::Succeeded,
                catalog_index_names: catalog_indices(names),
                has_catalog_index: catalog_indices(names).len() > 0,
                ..status
            },
        },
    }
}

/// What a probe of a cluster came to: its health, its version as the root document gives
/// it, and its catalog indices.
pub open spec fn cluster_probed(
    endpoint: EndpointView,
    health: Result<HttpResponseView, HttpProbeErrorView>,
    listing: Result<HttpResponseView, HttpProbeErrorView>,
    root: Result<HttpResponseView, HttpProbeErrorView>,
) -> OpenSearchStatusView {
    if endpoint.is_unix_socket {
        not_reached(NO_HTTP_OVER_SOCKET@)
    } else {
        match useful_body(health) {
            Err(reason) => not_reached(reason),
            Ok(body) => {
                let read = health_of(json::json_members(body));
                if !read.is_reachable {
                    not_reached(NOT_HEALTH@)
                } else {
                    with_listing(
                        OpenSearchStatusView {
                            probe: ProbeOutcomeView::Succeeded,
                            version: match useful_body(root) {
                                Ok(text) => json::json_text_at(text, "/version/number"@),
                                Err(_) => None,
                            },
                            ..read
                        },
                        useful_body(listing),
                    )
                }
            },
        }
    }
}

fn report_failure(reason: &str) -> (r: OpenSearchStatus)
    ensures
        r@ == not_reached(reason@),
{
    let mut status = OpenSearchStatus::default();
    status.is_configured = true;
    status.probe = ProbeOutcome::failed(reason);
    status
}

/// Reads cluster health, version and catalog indices out of what a node answered. A cluster
/// that wants a password, or whose answer cannot be read, is not reached, rather than empty.
pub fn inspect_opensearch(
    endpoint: &Endpoint,
    health: &Result<HttpResponse, HttpProbeError>,
    listing: &Result<HttpResponse, HttpProbeError>,
    root: &Result<HttpResponse, HttpProbeError>,
) -> (r: OpenSearchStatus)
    ensures
        r@ == cluster_probed(
            endpoint@,
            http_probe::response_result(*health),
            http_probe::response_result(*listing),
            http_probe::response_result(*root),
        ),
{
    if endpoint.is_unix_socket {
        return report_failure(NO_HTTP_OVER_SOCKET);
    }
    let body = match take_body(health) {
        Ok(body) => body,
        Err(reason) => {
            return report_failure(&reason);
        },
    };
    let mut status = parse_opensearch_health_json(&body);
    if !status.is_reachable {
        return report_failure(NOT_HEALTH);
    }
    status.probe = ProbeOutcome::Succeeded;
    status.version = match take_body(root) {
        Ok(text) => read_text_at(&text, "/version/number"),
        Err(_) => None,
    };
    match take_body(listing) {
        Err(reason) => {
            status.catalog_index_probe = ProbeOutcome::failed(&reason);
        },
        Ok(text) => match read_column(&text, "index") {
            None => {
                status.catalog_index_probe = ProbeOutcome::failed(NOT_LISTING);
            },
            Some(names) => {
                let found = find_catalog_indices(&names);
                assert(text::texts(found@).len() == found@.len());
                status.catalog_index_probe = ProbeOutcome::Succeeded;
                status.has_catalog_index = found.len() > 0;
                status.catalog_index_names = found;
            },
        },
    }
    status
}

/// A cluster is reported reached exactly on a successful answer that is a document; otherwise
/// no figure is reported, and no index is claimed to be there or missing.
pub proof fn law_reached_means_health_was_read(
    endpoint: EndpointView,
    health: Result<HttpResponseView, HttpProbeErrorView>,
    listing: Result<HttpResponseView, HttpProbeErrorView>,
    root: Result<HttpResponseView, HttpProbeErrorView>,
)
    ensures
        ({
            let r = cluster_probed(endpoint, health, listing, root);
            &&& r.is_configured
            &&& r.is_reachable <==> r.probe is Succeeded
            &&& r.is_reachable <==> {
                &&& !endpoint.is_unix_socket
                &&& health is Ok
                &&& health->Ok_0.succeeded()
                &&& json::json_members(health->Ok_0.body) is Some
            }
            &&& !r.is_reachable ==> r == not_reached(r.probe->reason)
            &&& r.has_catalog_index ==> r.catalog_index_probe is Succeeded
            &&& r.catalog_index_probe is Succeeded ==> listing is Ok && listing->Ok_0.succeeded()
        }),
{
}

/// Each figure of a cluster is the member of the health document under the server's own name
/// for it; a document that is none leaves the cluster unreached.
pub proof fn law_health_figures(document: Option<Seq<JsonFieldView>>, r: OpenSearchStatus)
    requires
        r@ == health_of(document),
    ensures
        r.is_configured,
        r.is_reachable <==> document is Some,
        document is Some ==> ({
            let fields = document->0;
            let nodes = json::member_whole(fields, "number_of_nodes"@);
            let primary = json::member_whole(fields, "active_primary_shards"@);
            let active = json::member_whole(fields, "active_shards"@);
            let unassigned = json::member_whole(fields, "unassigned_shards"@);
            &&& text::text_opt(r.cluster_name) == json::member_text(fields, "cluster_name"@)
            &&& text::text_opt(r.status) == json::member_text(fields, "status"@)
            &&& nodes is None ==> r.number_of_nodes is None
            &&& nodes is Some && nodes->0 < 0x1_0000_0000 ==> r.number_of_nodes is Some
                && r.number_of_nodes->0 == nodes->0
            &&& primary is None ==> r.active_primary_shards is None
            &&& primary is Some && primary->0 < 0x1_0000_0000 ==> r.active_primary_shards is Some
                && r.active_primary_shards->0 == primary->0
            &&& active is None ==> r.active_shards is None
            &&& active is Some && active->0 < 0x1_0000_0000 ==> r.active_shards is Some
                && r.active_shards->0 == active->0
            &&& unassigned is None ==> r.unassigned_shards is None
            &&& unassigned is Some && unassigned->0 < 0x1_0000_0000 ==> r.unassigned_shards
                is Some && r.unassigned_shards->0 == unassigned->0
        }),
        document is None ==> r.cluster_name is None && r.status is None && r.number_of_nodes is None
            && r.unassigned_shards is None,
{
}

/// An index is one of the catalog where its name holds `_product`, `_category` or
/// `catalogsearch_fulltext`; each is listed, in the order of the listing, and no other is.
pub proof fn law_catalog_indices(names: Seq<Option<Seq<char>>>, next: Option<Seq<char>>)
    ensures
        ({
            let before = catalog_indices(names);
            let after = catalog_indices(names.push(next));
            let counts = next is Some && (text::contains_text(next->0, "_product"@)
                || text::contains_text(next->0, "_category"@) || text::contains_text(
                next->0,
                "catalogsearch_fulltext"@,
            ));
            &&& counts ==> after == before.push(next->0)
            &&& !counts ==> after == before
        }),
        catalog_indices(Seq::<Option<Seq<char>>>::empty()).len() == 0,
{
    assert(names.push(next).drop_last() =~= names);
}

/// What a probe of a cluster comes to. Without a health document it is not reached, and the
/// reason is given; with one, the version is that of the root document and the indices are
/// those of the listing, each where it could be read.
pub proof fn law_cluster_probe(
    endpoint: EndpointView,
    health: Result<HttpResponseView, HttpProbeErrorView>,
    listing: Result<HttpResponseView, HttpProbeErrorView>,
    root: Result<HttpResponseView, HttpProbeErrorView>,
)
    ensures
        ({
            let r = cluster_probed(endpoint, health, listing, root);
            let answered = health is Ok && 200 <= health->Ok_0.status < 300;
            let listed = listing is Ok && 200 <= listing->Ok_0.status < 300;
            let rooted = root is Ok && 200 <= root->Ok_0.status < 300;
            let document = json::json_members(health->Ok_0.body);
            let names = json::json_column(listing->Ok_0.body, "index"@);
            &&& endpoint.is_unix_socket ==> r.probe == (ProbeOutcomeView::Failed {
                reason: "unix socket endpoints cannot be probed over HTTP"@,
            })
            &&& !endpoint.is_unix_socket && health is Err ==> r.probe == (
            ProbeOutcomeView::Failed { reason: health->Err_0.described() })
            &&& !endpoint.is_unix_socket && health is Ok && !answered ==> r.probe == (
            ProbeOutcomeView::Failed { reason: "HTTP "@ + number::dec(health->Ok_0.status as nat) })
            &&& !endpoint.is_unix_socket && answered && document is None ==> r.probe == (
            ProbeOutcomeView::Failed { reason: "response is not a cluster health document"@ })
            &&& r.is_reachable ==> {
                &&& r.status == json::member_text(document->0, "status"@)
                &&& r.version == if rooted {
                    json::json_text_at(root->Ok_0.body, "/version/number"@)
                } else {
                    None
                }
                &&& listed && names is Some ==> r.catalog_index_probe is Succeeded
                    && r.catalog_index_names == catalog_indices(names->0) && (r.has_catalog_index
                    <==> catalog_indices(names->0).len() > 0)
                &&& listed && names is None ==> r.catalog_index_probe == (
                ProbeOutcomeView::Failed { reason: "response is not an index listing"@ })
                &&& listing is Ok && !listed ==> r.catalog_index_probe == (
                ProbeOutcomeView::Failed {
                    reason: "HTTP "@ + number::dec(listing->Ok_0.status as nat),
                })
                &&& listing is Err ==> r.catalog_index_probe == (ProbeOutcomeView::Failed {
                    reason: listing->Err_0.described(),
                })
                &&& !(listed && names is Some) ==> !r.has_catalog_index
                    && r.catalog_index_names.len() == 0
            }
        }),
{
}

} // verus!

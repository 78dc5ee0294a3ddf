//! Listing the records of a registry table.

use vstd::prelude::*;
use vstd::string::StringExecFns;
use crate::api::error::OpsmlError;
use crate::api::render::grid;
use crate::api::render::render_table;
use crate::api::render::sharp_table;
use crate::api::tags::build_tags;
use crate::api::tags::opt_texts;
use crate::api::tags::tag_filter;
use crate::api::text::opt_str;
use crate::api::text::opt_text;
use crate::api::text::owned;
use crate::api::text::texts;
use crate::api::types::Card;
use crate::api::types::CardTable;
use crate::api::types::ListCardResponse;
use crate::api::types::ListTableRequest;
use crate::api::utils::is_success;
use crate::api::utils::query_output;
use crate::api::utils::response_output;
use crate::api::utils::text_result;

verus! {

/// The registry tables.
#[derive(Debug, Clone, Copy, PartialEq, Eq, Structural)]
pub enum OpsmlRegistries {
    Data,
    Model,
    Run,
    Pipeline,
    Audit,
}

impl OpsmlRegistries {
    /// The identifier under which the registry knows the table.
    pub open spec fn table_name(self) -> Seq<char> {
        match self {
            OpsmlRegistries::Data => "OPSML_DATA_REGISTRY"@,
            OpsmlRegistries::Model => "OPSML_MODEL_REGISTRY"@,
            OpsmlRegistries::Run => "OPSML_RUN_REGISTRY"@,
            OpsmlRegistries::Pipeline => "OPSML_PIPELINE_REGISTRY"@,
            OpsmlRegistries::Audit => "OPSML_AUDIT_REGISTRY"@,
        }
    }

    pub fn as_str(&self) -> (name: String)
        ensures
            name@ == self.table_name(),
    {
        match self {
            OpsmlRegistries::Data => String::from_str("OPSML_DATA_REGISTRY"),
            OpsmlRegistries::Model => String::from_str("OPSML_MODEL_REGISTRY"),
            OpsmlRegistries::Run => String::from_str("OPSML_RUN_REGISTRY"),
            OpsmlRegistries::Pipeline => String::from_str("OPSML_PIPELINE_REGISTRY"),
            OpsmlRegistries::Audit => String::from_str("OPSML_AUDIT_REGISTRY"),
        }
    }
}

/// The table that a registry name given on the command line selects. The
/// names are `data`, `model`, `run` and `audit`; any other selects none.
pub open spec fn named_registry(registry: Seq<char>) -> Option<OpsmlRegistries> {
    if registry == "data"@ {
        Some(OpsmlRegistries::Data)
    } else if registry == "model"@ {
        Some(OpsmlRegistries::Model)
    } else if registry == "run"@ {
        Some(OpsmlRegistries::Run)
    } else if registry == "audit"@ {
        Some(OpsmlRegistries::Audit)
    } else {
        None
    }
}

/// The table that a registry name selects, if it selects one.
pub fn find_registry(registry: &str) -> (found: Option<OpsmlRegistries>)
    ensures
        found == named_registry(registry@),
{
    if *registry == *"data" {
        Some(OpsmlRegistries::Data)
    } else if *registry == *"model" {
        Some(OpsmlRegistries::Model)
    } else if *registry == *"run" {
        Some(OpsmlRegistries::Run)
    } else if *registry == *"audit" {
        Some(OpsmlRegistries::Audit)
    } else {
        None
    }
}

/// Determines the table identifier for a registry name that selects one.
pub fn get_registry(registry: &str) -> (table: String)
    requires
        named_registry(registry@) is Some,
    ensures
        table@ == named_registry(registry@)->0.table_name(),
{
    match find_registry(registry) {
        Some(found) => found.as_str(),
        None => unreached(),
    }
}

/// The body of a list query: the table of the registry, the filters as given,
/// and the tag filter built from the two tag lists (always present, possibly
/// empty).
pub fn list_request(
    registry: &str,
    name: Option<&str>,
    team: Option<&str>,
    version: Option<&str>,
    uid: Option<&str>,
    limit: Option<i16>,
    tag_name: &Option<Vec<String>>,
    tag_value: &Option<Vec<String>>,
    max_date: Option<&str>,
) -> (request: ListTableRequest)
    requires
        named_registry(registry@) is Some,
    ensures
        request.table_name@ == named_registry(registry@)->0.table_name(),
        opt_text(request.name) == opt_str(name),
        opt_text(request.team) == opt_str(team),
        opt_text(request.version) == opt_str(version),
        opt_text(request.uid) == opt_str(uid),
        request.limit == limit,
        request.tags is Some,
        request.tags->0@ == tag_filter(opt_texts(*tag_name), opt_texts(*tag_value)),
        opt_text(request.max_date) == opt_str(max_date),
{
    ListTableRequest {
        table_name: get_registry(registry),
        name: owned(name),
        team: owned(team),
        version: owned(version),
        uid: owned(uid),
        limit,
        tags: Some(build_tags(tag_name, tag_value)),
        max_date: owned(max_date),
    }
}

/// The column titles of the card table.
pub open spec fn card_header() -> Seq<Seq<char>> {
    seq!["name"@, "team"@, "date"@, "user_email"@, "version"@, "uid"@]
}

impl Card {
    /// The card's row of the card table: every field but the tags.
    pub open spec fn cells(&self) -> Seq<Seq<char>> {
        seq![self.name@, self.team@, self.date@, self.user_email@, self.version@, self.uid@]
    }
}

impl CardTable {
    /// The row's cells, left to right.
    pub open spec fn cells(&self) -> Seq<Seq<char>> {
        seq![self.name@, self.team@, self.date@, self.user_email@, self.version@, self.uid@]
    }

    /// The row's cells as a record for the table.
    pub fn record(&self) -> (cells: Vec<String>)
        ensures
            texts(cells@) == self.cells(),
    {
        let mut cells: Vec<String> = Vec::new();
        cells.push(self.name.clone());
        cells.push(self.team.clone());
        cells.push(self.date.clone());
        cells.push(self.user_email.clone());
        cells.push(self.version.clone());
        cells.push(self.uid.clone());
        assert(texts(cells@) =~= self.cells());
        cells
    }
}

/// The rows of the first `n` cards of a list.
pub open spec fn card_rows(cards: Seq<Card>, n: int) -> Seq<Seq<Seq<char>>>
    decreases n,
{
    if n <= 0 {
        Seq::empty()
    } else {
        card_rows(cards, n - 1).push(cards[n - 1].cells())
    }
}

/// The cells of a list of rows.
pub open spec fn table_cells(rows: Seq<CardTable>) -> Seq<Seq<Seq<char>>> {
    Seq::new(rows.len(), |i: int| rows[i].cells())
}

/// The rows of the card table: one per card, in the order of the response.
pub fn card_table(response: &ListCardResponse) -> (rows: Vec<CardTable>)
    ensures
        table_cells(rows@) == card_rows(response.cards@, response.cards@.len() as int),
{
    let mut rows: Vec<CardTable> = Vec::new();
    assert(table_cells(rows@) =~= card_rows(response.cards@, 0));
    let mut i: usize = 0;
    while i < response.cards.len()
        invariant
            i <= response.cards.len(),
            table_cells(rows@) == card_rows(response.cards@, i as int),
        decreases response.cards.len() - i,
    {
        let card = &response.cards[i];
        let ghost before = rows@;
        rows.push(
            CardTable {
                name: card.name.clone(),
                team: card.team.clone(),
                date: card.date.clone(),
                user_email: card.user_email.clone(),
                version: card.version.clone(),
                uid: card.uid.clone(),
            },
        );
        assert(table_cells(rows@) =~= table_cells(before).push(card.cells()));
        i = i + 1;
    }
    rows
}

/// The records of the card table, without its header.
pub fn card_records(response: &ListCardResponse) -> (records: Vec<Vec<String>>)
    ensures
        grid(records@) == card_rows(response.cards@, response.cards@.len() as int),
{
    let rows = card_table(response);
    let mut records: Vec<Vec<String>> = Vec::new();
    let mut i: usize = 0;
    while i < rows.len()
        invariant
            i <= rows.len(),
            grid(records@) == table_cells(rows@).subrange(0, i as int),
        decreases rows.len() - i,
    {
        let ghost before = records@;
        records.push(rows[i].record());
        assert(grid(records@) =~= grid(before).push(rows@[i as int].cells()));
        i = i + 1;
    }
    assert(table_cells(rows@).subrange(0, i as int) =~= table_cells(rows@));
    records
}

/// The card table of a response: one row per card under the card titles,
/// laid out by the table renderer.
pub fn parse_list_response(response: &ListCardResponse) -> (table: String)
    ensures
        table@ == sharp_table(
            card_header(),
            card_rows(response.cards@, response.cards@.len() as int),
        ),
{
    let mut header: Vec<String> = Vec::new();
    header.push(String::from_str("name"));
    header.push(String::from_str("team"));
    header.push(String::from_str("date"));
    header.push(String::from_str("user_email"));
    header.push(String::from_str("version"));
    header.push(String::from_str("uid"));
    assert(texts(header@) =~= card_header());
    render_table(header, card_records(response))
}

/// What a list query ends in: the table for a decoded success response, an
/// error for any other status or for a body that did not decode.
pub fn list_cards_output(status: u16, response: Option<&ListCardResponse>) -> (output: Result<
    String,
    OpsmlError,
>)
    ensures
        text_result(output) == response_output(
            status,
            match response {
                Some(decoded) => Some(
                    sharp_table(
                        card_header(),
                        card_rows(decoded.cards@, decoded.cards@.len() as int),
                    ),
                ),
                None => None,
            },
        ),
{
    let table = match response {
        Some(decoded) if is_success(status) => Some(parse_list_response(decoded)),
        _ => None,
    };
    query_output(status, table)
}

} // verus!

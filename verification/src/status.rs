//! The monitored tables and the query set of the current-status overview.

use vstd::prelude::*;

use crate::generate_leveled_sql::{generate_drs, level_spans, SqlGeneratorError};
use crate::generate_sql::{
    current_general_sql, current_players_sql, generate_current_general,
    generate_current_players, CompressionType, DataType,
};

verus! {

/// System statistics of the VPS server.
pub const ECS_TABLE: &'static str = "ecs_stat";

/// System statistics of the physical server.
pub const PHYSICAL_TABLE: &'static str = "physical_stat";

/// Statistics of the ZHS Minecraft server.
pub const MC_TABLE: &'static str = "mcserver_stat";

/// Statistics of the systemdirect Minecraft server.
pub const SYSTEMDIRECT_TABLE: &'static str = "sysytemdirect_stat";

/// Statistics of the TRC Minecraft server.
pub const TRC_TABLE: &'static str = "trc_stat";

/// The queries of the current-status overview over a window of `window` seconds, in the
/// order the overview reads them: cpu and memory average and deviation of the VPS, then of
/// the physical server, then latency average and deviation and current players of each of
/// the three Minecraft servers.
pub open spec fn current_status_sql(window: int) -> Seq<Seq<char>> {
    seq![
        current_general_sql(CompressionType::Average, DataType::CPU, ECS_TABLE@, window),
        current_general_sql(CompressionType::StandardDeviation, DataType::CPU, ECS_TABLE@, window),
        current_general_sql(CompressionType::Average, DataType::Memory, ECS_TABLE@, window),
        current_general_sql(CompressionType::StandardDeviation, DataType::Memory, ECS_TABLE@, window),
        current_general_sql(CompressionType::Average, DataType::CPU, PHYSICAL_TABLE@, window),
        current_general_sql(CompressionType::StandardDeviation, DataType::CPU, PHYSICAL_TABLE@, window),
        current_general_sql(CompressionType::Average, DataType::Memory, PHYSICAL_TABLE@, window),
        current_general_sql(CompressionType::StandardDeviation, DataType::Memory, PHYSICAL_TABLE@, window),
        current_general_sql(CompressionType::Average, DataType::Latency, MC_TABLE@, window),
        current_general_sql(CompressionType::StandardDeviation, DataType::Latency, MC_TABLE@, window),
        current_players_sql(MC_TABLE@),
        current_general_sql(CompressionType::Average, DataType::Latency, SYSTEMDIRECT_TABLE@, window),
        current_general_sql(CompressionType::StandardDeviation, DataType::Latency, SYSTEMDIRECT_TABLE@, window),
        current_players_sql(SYSTEMDIRECT_TABLE@),
        current_general_sql(CompressionType::Average, DataType::Latency, TRC_TABLE@, window),
        current_general_sql(CompressionType::StandardDeviation, DataType::Latency, TRC_TABLE@, window),
        current_players_sql(TRC_TABLE@),
    ]
}

/// The views of a list of strings.
pub open spec fn string_views(v: Seq<String>) -> Seq<Seq<char>> {
    v.map_values(|q: String| q@)
}

/// The queries of the current-status overview at display `level`, or `InvalidLevel`.
pub fn current_status_queries(level: i32) -> (r: Result<Vec<String>, SqlGeneratorError>)
    ensures
        match level_spans(level as int) {
            Some((window, _)) => r matches Ok(v) && string_views(v@) == current_status_sql(window),
            None => r matches Err(e) && e == SqlGeneratorError::InvalidLevel,
        },
{
    let (window, _) = generate_drs(level)?;
    let mut queries: Vec<String> = Vec::new();
    queries.push(generate_current_general(CompressionType::Average, DataType::CPU, ECS_TABLE, window));
    queries.push(generate_current_general(CompressionType::StandardDeviation, DataType::CPU, ECS_TABLE, window));
    queries.push(generate_current_general(CompressionType::Average, DataType::Memory, ECS_TABLE, window));
    queries.push(generate_current_general(CompressionType::StandardDeviation, DataType::Memory, ECS_TABLE, window));
    queries.push(generate_current_general(CompressionType::Average, DataType::CPU, PHYSICAL_TABLE, window));
    queries.push(generate_current_general(CompressionType::StandardDeviation, DataType::CPU, PHYSICAL_TABLE, window));
    queries.push(generate_current_general(CompressionType::Average, DataType::Memory, PHYSICAL_TABLE, window));
    queries.push(generate_current_general(CompressionType::StandardDeviation, DataType::Memory, PHYSICAL_TABLE, window));
    queries.push(generate_current_general(CompressionType::Average, DataType::Latency, MC_TABLE, window));
    queries.push(generate_current_general(CompressionType::StandardDeviation, DataType::Latency, MC_TABLE, window));
    queries.push(generate_current_players(MC_TABLE));
    queries.push(generate_current_general(CompressionType::Average, DataType::Latency, SYSTEMDIRECT_TABLE, window));
    queries.push(generate_current_general(CompressionType::StandardDeviation, DataType::Latency, SYSTEMDIRECT_TABLE, window));
    queries.push(generate_current_players(SYSTEMDIRECT_TABLE));
    queries.push(generate_current_general(CompressionType::Average, DataType::Latency, TRC_TABLE, window));
    queries.push(generate_current_general(CompressionType::StandardDeviation, DataType::Latency, TRC_TABLE, window));
    queries.push(generate_current_players(TRC_TABLE));
    assert(string_views(queries@) =~= current_status_sql(window as int));
    Ok(queries)
}

} // verus!

//! SQL text for the monitoring queries: time-bucketed series and current aggregates.

use vstd::prelude::*;

use crate::decimal::{decimal, decimal_string};

verus! {

/// Start of the server series query, up to the first bucket size.
pub const SERVER_STAT_HEAD: &'static str = r#"
SELECT
    parted_time.bucket_time as create_time,
    ROUND(AVG(parted_time.cpu_usage), 1) AS cpu_usage,
    ROUND(AVG(parted_time.memory_usage), 1) AS memory_usage,
    ROUND(AVG(parted_time.net_send_rate), 1) AS net_send_rate,
    ROUND(AVG(parted_time.net_recv_rate), 1) AS net_recv_rate
FROM (
    SELECT
        DATE_FORMAT(
            FROM_UNIXTIME(FLOOR(UNIX_TIMESTAMP(create_time) / "#;

/// Start of the Minecraft series query, up to the first bucket size.
pub const MC_STAT_HEAD: &'static str = r#"
SELECT
    parted_time.bucket_time as create_time,
    ROUND(AVG(parted_time.latency), 1) AS latency,
    MAX(parted_time.players) AS players
FROM (
    SELECT
        DATE_FORMAT(
            FROM_UNIXTIME(FLOOR(UNIX_TIMESTAMP(create_time) / "#;

/// Text between the two bucket sizes of a series query.
pub const BUCKET_TIMES: &'static str = r#") * "#;

/// Columns of the server series sub-query, up to the table name.
pub const SERVER_STAT_COLUMNS: &'static str = r#"),
            '%Y-%m-%d %H:%i:%s'
        ) AS bucket_time,
        cpu_usage,
        memory_usage,
        net_send_rate,
        net_recv_rate
    FROM "#;

/// Columns of the Minecraft series sub-query, up to the table name.
pub const MC_STAT_COLUMNS: &'static str = r#"),
            '%Y-%m-%d %H:%i:%s'
        ) AS bucket_time,
        latency,
        players
    FROM "#;

/// Text between the table name and the time window of a series query.
pub const WINDOW_START: &'static str = r#"
    WHERE create_time > DATE_SUB(NOW(), INTERVAL "#;

/// End of a series query, after the time window.
pub const WINDOW_END: &'static str = r#" SECOND) AND deleted = 0
) AS parted_time
GROUP BY parted_time.bucket_time
ORDER BY parted_time.bucket_time;
    "#;

/// A time-bucketed series query: rows of `table` newer than `time_interval` seconds,
/// grouped into buckets of `bucket_size` seconds, with `head` and `columns` choosing
/// what is averaged.
pub open spec fn bucketed_sql(
    head: Seq<char>,
    columns: Seq<char>,
    table: Seq<char>,
    time_interval: Seq<char>,
    bucket_size: Seq<char>,
) -> Seq<char> {
    head + bucket_size + BUCKET_TIMES@ + bucket_size + columns + table + WINDOW_START@
        + time_interval + WINDOW_END@
}

/// The series query over a server table: averaged cpu, memory and network rates per bucket.
pub open spec fn server_stat_sql(
    table: Seq<char>,
    time_interval: Seq<char>,
    bucket_size: Seq<char>,
) -> Seq<char> {
    bucketed_sql(SERVER_STAT_HEAD@, SERVER_STAT_COLUMNS@, table, time_interval, bucket_size)
}

/// The series query over a Minecraft table: averaged latency and peak players per bucket.
pub open spec fn mc_stat_sql(
    table: Seq<char>,
    time_interval: Seq<char>,
    bucket_size: Seq<char>,
) -> Seq<char> {
    bucketed_sql(MC_STAT_HEAD@, MC_STAT_COLUMNS@, table, time_interval, bucket_size)
}

fn bucketed_query(
    head: &str,
    columns: &str,
    table: &str,
    time_interval: &str,
    bucket_size: &str,
) -> (q: String)
    ensures
        q@ == bucketed_sql(head@, columns@, table@, time_interval@, bucket_size@),
{
    let mut q = String::from_str(head);
    q.append(bucket_size);
    q.append(BUCKET_TIMES);
    q.append(bucket_size);
    q.append(columns);
    q.append(table);
    q.append(WINDOW_START);
    q.append(time_interval);
    q.append(WINDOW_END);
    q
}

/// The series query over the server table `table` for the last `time_interval` seconds,
/// in buckets of `bucket_size` seconds.
pub fn generate_server_stat(table: &str, time_interval: &str, bucket_size: &str) -> (q: String)
    ensures
        q@ == server_stat_sql(table@, time_interval@, bucket_size@),
{
    bucketed_query(SERVER_STAT_HEAD, SERVER_STAT_COLUMNS, table, time_interval, bucket_size)
}

/// The series query over the Minecraft table `table` for the last `time_interval` seconds,
/// in buckets of `bucket_size` seconds.
pub fn generate_mc_stat(table: &str, time_interval: &str, bucket_size: &str) -> (q: String)
    ensures
        q@ == mc_stat_sql(table@, time_interval@, bucket_size@),
{
    bucketed_query(MC_STAT_HEAD, MC_STAT_COLUMNS, table, time_interval, bucket_size)
}

/// How the values of a column are compressed into one number.
#[derive(Clone, Copy, Debug, PartialEq, Eq, Structural)]
pub enum CompressionType {
    Average,
    StandardDeviation,
}

/// Which measurement a current-aggregate query reads.
#[allow(clippy::upper_case_acronyms)]
#[derive(Clone, Copy, Debug, PartialEq, Eq, Structural)]
pub enum DataType {
    CPU,
    Memory,
    Latency,
}

/// The SQL aggregate function of a compression type.
pub open spec fn aggregate_function(compression_type: CompressionType) -> Seq<char> {
    match compression_type {
        CompressionType::Average => "AVG"@,
        CompressionType::StandardDeviation => "STDDEV"@,
    }
}

/// The column that holds a measurement.
pub open spec fn measured_column(data_type: DataType) -> Seq<char> {
    match data_type {
        DataType::CPU => "cpu_usage"@,
        DataType::Memory => "memory_usage"@,
        DataType::Latency => "latency"@,
    }
}

/// The extra condition of a measurement: latency rows holding the 5000 ms timeout
/// marker are left out; other measurements add nothing.
pub open spec fn latency_filter(data_type: DataType) -> Seq<char> {
    match data_type {
        DataType::Latency => "AND latency != 5000 "@,
        _ => Seq::<char>::empty(),
    }
}

/// The query for one aggregate of one measurement over the last `interval` seconds.
pub open spec fn current_general_sql(
    compression_type: CompressionType,
    data_type: DataType,
    table: Seq<char>,
    interval: int,
) -> Seq<char> {
    "SELECT "@ + aggregate_function(compression_type) + "("@ + measured_column(data_type)
        + ") FROM "@ + table + " WHERE create_time > DATE_SUB(NOW(), INTERVAL "@
        + decimal(interval) + " SECOND) "@ + latency_filter(data_type) + "AND deleted = 0;"@
}

/// The query for the player count of the newest row.
pub open spec fn current_players_sql(table: Seq<char>) -> Seq<char> {
    "SELECT players FROM "@ + table + " WHERE deleted = 0 ORDER BY create_time DESC LIMIT 1;"@
}

/// The query for the `compression_type` aggregate of the `data_type` measurement in
/// `table` over the last `interval` seconds.
pub fn generate_current_general(
    compression_type: CompressionType,
    data_type: DataType,
    table: &str,
    interval: i32,
) -> (q: String)
    ensures
        q@ == current_general_sql(compression_type, data_type, table@, interval as int),
{
    let algorithm = match compression_type {
        CompressionType::Average => "AVG",
        CompressionType::StandardDeviation => "STDDEV",
    };
    let mut extra = String::new();
    let field = match data_type {
        DataType::CPU => "cpu_usage",
        DataType::Memory => "memory_usage",
        DataType::Latency => {
            extra = String::from_str("AND latency != 5000 ");
            "latency"
        },
    };
    let interval_text = decimal_string(interval);
    let mut q = String::from_str("SELECT ");
    q.append(algorithm);
    q.append("(");
    q.append(field);
    q.append(") FROM ");
    q.append(table);
    q.append(" WHERE create_time > DATE_SUB(NOW(), INTERVAL ");
    q.append(interval_text.as_str());
    q.append(" SECOND) ");
    q.append(extra.as_str());
    q.append("AND deleted = 0;");
    q
}

/// The query for the player count of the newest live row of `table`.
pub fn generate_current_players(table: &str) -> (q: String)
    ensures
        q@ == current_players_sql(table@),
{
    let mut q = String::from_str("SELECT players FROM ");
    q.append(table);
    q.append(" WHERE deleted = 0 ORDER BY create_time DESC LIMIT 1;");
    q
}

} // verus!

//! Queries chosen by a display level: each level is a time window split into buckets.

use vstd::prelude::*;

use crate::decimal::{decimal, decimal_string};
use crate::generate_sql::{
    current_general_sql, generate_current_general, generate_mc_stat, generate_server_stat,
    mc_stat_sql, server_stat_sql, CompressionType, DataType,
};

verus! {

/// Why a query could not be generated.
#[derive(Clone, Copy, Debug, PartialEq, Eq, Structural)]
pub enum SqlGeneratorError {
    /// The level is not one of the known display levels.
    InvalidLevel,
}

impl SqlGeneratorError {
    /// The human-readable message of the error.
    pub fn message(&self) -> (m: String)
        ensures
            m@ == "Invalid level"@,
    {
        String::from_str("Invalid level")
    }
}

/// The time window and bucket size, both in seconds, of a display level:
/// 300 s, one hour, one day, ten days, a hundred days and a year, for levels 0 to 5.
pub open spec fn level_spans(level: int) -> Option<(int, int)> {
    if level == 0 {
        Some((300, 1))
    } else if level == 1 {
        Some((3600, 12))
    } else if level == 2 {
        Some((86400, 288))
    } else if level == 3 {
        Some((864000, 2880))
    } else if level == 4 {
        Some((8640000, 28800))
    } else if level == 5 {
        Some((31536000, 105120))
    } else {
        None
    }
}

/// The time window and bucket size of `level`, or `InvalidLevel` for an unknown level.
pub fn generate_drs(level: i32) -> (r: Result<(i32, i32), SqlGeneratorError>)
    ensures
        match level_spans(level as int) {
            Some((ranges, bucket)) => r == Ok::<(i32, i32), SqlGeneratorError>(
                (ranges as i32, bucket as i32),
            ),
            None => r == Err::<(i32, i32), SqlGeneratorError>(SqlGeneratorError::InvalidLevel),
        },
{
    match level {
        0 => Ok((300, 1)),
        1 => Ok((3600, 12)),
        2 => Ok((86400, 288)),
        3 => Ok((864000, 2880)),
        4 => Ok((8640000, 28800)),
        5 => Ok((31536000, 105120)),
        _ => Err(SqlGeneratorError::InvalidLevel),
    }
}

/// The server series query over `table` at display `level`.
pub fn gl_server_stat(table: &str, level: i32) -> (r: Result<String, SqlGeneratorError>)
    ensures
        match level_spans(level as int) {
            Some((ranges, bucket)) => r matches Ok(q) && q@ == server_stat_sql(
                table@,
                decimal(ranges),
                decimal(bucket),
            ),
            None => r matches Err(e) && e == SqlGeneratorError::InvalidLevel,
        },
{
    let (ranges, bs) = generate_drs(level)?;
    let ranges_text = decimal_string(ranges);
    let bucket_text = decimal_string(bs);
    Ok(generate_server_stat(table, ranges_text.as_str(), bucket_text.as_str()))
}

/// The Minecraft series query over `table` at display `level`.
pub fn gl_mc_stat(table: &str, level: i32) -> (r: Result<String, SqlGeneratorError>)
    ensures
        match level_spans(level as int) {
            Some((ranges, bucket)) => r matches Ok(q) && q@ == mc_stat_sql(
                table@,
                decimal(ranges),
                decimal(bucket),
            ),
            None => r matches Err(e) && e == SqlGeneratorError::InvalidLevel,
        },
{
    let (ranges, bs) = generate_drs(level)?;
    let ranges_text = decimal_string(ranges);
    let bucket_text = decimal_string(bs);
    Ok(generate_mc_stat(table, ranges_text.as_str(), bucket_text.as_str()))
}

/// The current-aggregate query over `table` for the time window of display `level`.
pub fn gl_current_general(
    compression_type: CompressionType,
    data_type: DataType,
    table: &str,
    level: i32,
) -> (r: Result<String, SqlGeneratorError>)
    ensures
        match level_spans(level as int) {
            Some((ranges, _)) => r matches Ok(q) && q@ == current_general_sql(
                compression_type,
                data_type,
                table@,
                ranges,
            ),
            None => r matches Err(e) && e == SqlGeneratorError::InvalidLevel,
        },
{
    let (ranges, _) = generate_drs(level)?;
    Ok(generate_current_general(compression_type, data_type, table, ranges))
}

/// Exactly the levels 0 to 5 are known display levels.
pub proof fn lemma_known_levels(level: int)
    ensures
        level_spans(level) is Some <==> 0 <= level <= 5,
{
}

/// Every known level splits its window into exactly 300 buckets of positive size, so a
/// series query gives the front end about 300 points whatever the level.
pub proof fn lemma_three_hundred_buckets(level: int)
    requires
        0 <= level <= 5,
    ensures
        level_spans(level) matches Some((window, bucket)) && bucket > 0 && window == 300 * bucket,
{
}

/// A higher level covers a strictly longer window with strictly wider buckets.
pub proof fn lemma_levels_widen(low: int, high: int)
    requires
        0 <= low < high <= 5,
    ensures
        level_spans(low) matches Some((w1, b1)) && level_spans(high) matches Some((w2, b2))
            && w1 < w2 && b1 < b2,
{
}

} // verus!

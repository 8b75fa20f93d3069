//! Laws of the query texts: what every query says, whatever its arguments.

use vstd::prelude::*;

use crate::decimal::decimal;
use crate::generate_sql::{
    aggregate_function, current_general_sql, current_players_sql, latency_filter, measured_column, mc_stat_sql, server_stat_sql, CompressionType,
    DataType, BUCKET_TIMES, MC_STAT_COLUMNS, MC_STAT_HEAD, SERVER_STAT_COLUMNS,
    SERVER_STAT_HEAD, WINDOW_END, WINDOW_START,
};

verus! {

proof fn lemma_split_suffix(s: Seq<char>, frag: Seq<char>)
    requires
        frag.is_suffix_of(s),
    ensures
        s == s.subrange(0, s.len() - frag.len()) + frag,
{
    assert(s =~= s.subrange(0, s.len() - frag.len()) + frag);
}

proof fn lemma_split_prefix(s: Seq<char>, frag: Seq<char>)
    requires
        frag.is_prefix_of(s),
    ensures
        s == frag + s.subrange(frag.len() as int, s.len() as int),
{
    assert(s =~= frag + s.subrange(frag.len() as int, s.len() as int));
}

proof fn lemma_regroup_bucket(
    h0: Seq<char>, f: Seq<char>, b: Seq<char>, bt: Seq<char>, p: Seq<char>, c1: Seq<char>,
    t: Seq<char>, ws: Seq<char>, i: Seq<char>, w: Seq<char>,
)
    ensures
        (h0 + f) + b + bt + b + (p + c1) + t + ws + i + w
            == h0 + (f + b + bt + b + p) + (c1 + t + ws + i + w),
{
    assert((h0 + f) + b + bt + b + (p + c1) + t + ws + i + w
        =~= h0 + (f + b + bt + b + p) + (c1 + t + ws + i + w));
}

proof fn lemma_regroup_window(
    h: Seq<char>, b: Seq<char>, bt: Seq<char>, c0: Seq<char>, fr: Seq<char>, t: Seq<char>,
    ws: Seq<char>, i: Seq<char>, sd: Seq<char>, w1: Seq<char>,
)
    ensures
        h + b + bt + b + (c0 + fr) + t + ws + i + (sd + w1)
            == (h + b + bt + b + c0) + (fr + t + ws + i + sd) + w1,
{
    assert(h + b + bt + b + (c0 + fr) + t + ws + i + (sd + w1)
        =~= (h + b + bt + b + c0) + (fr + t + ws + i + sd) + w1);
}

proof fn lemma_regroup_start(st: Seq<char>, ag: Seq<char>, r: Seq<char>, tail: Seq<char>)
    ensures
        (st + ag).is_prefix_of((st + ag + r) + tail),
{
    assert((st + ag) =~= ((st + ag + r) + tail).subrange(0, (st + ag).len() as int));
}

/// The fixed texts of the series queries: both heads end where the bucket arithmetic
/// starts, the Minecraft head averages latency and takes the peak player count, the server
/// head averages cpu, memory and both network rates, both column lists end in the `FROM`
/// of the sub-query, and the window text is the `create_time` cut-off followed by the
/// removal of deleted rows.
proof fn lemma_series_fixed_texts()
    ensures
        SERVER_STAT_HEAD@ == SERVER_STAT_HEAD@.subrange(0, SERVER_STAT_HEAD@.len() - 36)
            + "FLOOR(UNIX_TIMESTAMP(create_time) / "@,
        MC_STAT_HEAD@ == MC_STAT_HEAD@.subrange(0, MC_STAT_HEAD@.len() - 36)
            + "FLOOR(UNIX_TIMESTAMP(create_time) / "@,
        SERVER_STAT_HEAD@.subrange(0, 52) == "\nSELECT\n    parted_time.bucket_time as create_time,\n"@,
        MC_STAT_HEAD@.subrange(0, 52) == "\nSELECT\n    parted_time.bucket_time as create_time,\n"@,
        SERVER_STAT_HEAD@ == SERVER_STAT_HEAD@.subrange(0, 52)
            + "    ROUND(AVG(parted_time.cpu_usage), 1) AS cpu_usage,\n    ROUND(AVG(parted_time.memory_usage), 1) AS memory_usage,\n    ROUND(AVG(parted_time.net_send_rate), 1) AS net_send_rate,\n    ROUND(AVG(parted_time.net_recv_rate), 1) AS net_recv_rate\n"@
            + SERVER_STAT_HEAD@.subrange(293, SERVER_STAT_HEAD@.len() as int),
        MC_STAT_HEAD@ == MC_STAT_HEAD@.subrange(0, 52)
            + "    ROUND(AVG(parted_time.latency), 1) AS latency,\n    MAX(parted_time.players) AS players\n"@
            + MC_STAT_HEAD@.subrange(143, MC_STAT_HEAD@.len() as int),
        SERVER_STAT_COLUMNS@ == SERVER_STAT_COLUMNS@.subrange(0, SERVER_STAT_COLUMNS@.len() - 9)
            + "    FROM "@,
        MC_STAT_COLUMNS@ == MC_STAT_COLUMNS@.subrange(0, MC_STAT_COLUMNS@.len() - 9)
            + "    FROM "@,
        SERVER_STAT_COLUMNS@ == ")"@ + SERVER_STAT_COLUMNS@.subrange(1, SERVER_STAT_COLUMNS@.len() as int),
        MC_STAT_COLUMNS@ == ")"@ + MC_STAT_COLUMNS@.subrange(1, MC_STAT_COLUMNS@.len() as int),
        BUCKET_TIMES@ == ") * "@,
        WINDOW_START@ == "\n    WHERE create_time > DATE_SUB(NOW(), INTERVAL "@,
        WINDOW_END@ == " SECOND) AND deleted = 0\n"@ + WINDOW_END@.subrange(25, WINDOW_END@.len() as int),
{
    reveal_strlit(r#"
SELECT
    parted_time.bucket_time as create_time,
    ROUND(AVG(parted_time.cpu_usage), 1) AS cpu_usage,
    ROUND(AVG(parted_time.memory_usage), 1) AS memory_usage,
    ROUND(AVG(parted_time.net_send_rate), 1) AS net_send_rate,
    ROUND(AVG(parted_time.net_recv_rate), 1) AS net_recv_rate
FROM (
    SELECT
        DATE_FORMAT(
            FROM_UNIXTIME(FLOOR(UNIX_TIMESTAMP(create_time) / "#);
    reveal_strlit(r#"
SELECT
    parted_time.bucket_time as create_time,
    ROUND(AVG(parted_time.latency), 1) AS latency,
    MAX(parted_time.players) AS players
FROM (
    SELECT
        DATE_FORMAT(
            FROM_UNIXTIME(FLOOR(UNIX_TIMESTAMP(create_time) / "#);
    reveal_strlit(r#") * "#);
    reveal_strlit(r#"),
            '%Y-%m-%d %H:%i:%s'
        ) AS bucket_time,
        cpu_usage,
        memory_usage,
        net_send_rate,
        net_recv_rate
    FROM "#);
    reveal_strlit(r#"),
            '%Y-%m-%d %H:%i:%s'
        ) AS bucket_time,
        latency,
        players
    FROM "#);
    reveal_strlit(r#"
    WHERE create_time > DATE_SUB(NOW(), INTERVAL "#);
    reveal_strlit(r#" SECOND) AND deleted = 0
) AS parted_time
GROUP BY parted_time.bucket_time
ORDER BY parted_time.bucket_time;
    "#);
    reveal_strlit("\nSELECT\n    parted_time.bucket_time as create_time,\n");
    reveal_strlit("FLOOR(UNIX_TIMESTAMP(create_time) / ");
    reveal_strlit("    ROUND(AVG(parted_time.cpu_usage), 1) AS cpu_usage,\n    ROUND(AVG(parted_time.memory_usage), 1) AS memory_usage,\n    ROUND(AVG(parted_time.net_send_rate), 1) AS net_send_rate,\n    ROUND(AVG(parted_time.net_recv_rate), 1) AS net_recv_rate\n");
    reveal_strlit("    ROUND(AVG(parted_time.latency), 1) AS latency,\n    MAX(parted_time.players) AS players\n");
    reveal_strlit("    FROM ");
    reveal_strlit(")");
    reveal_strlit(") * ");
    reveal_strlit("\n    WHERE create_time > DATE_SUB(NOW(), INTERVAL ");
    reveal_strlit(" SECOND) AND deleted = 0\n");
}

/// Any two server series queries are one fixed text with their own arguments written into
/// the same places: the bucket size twice, then the table, then the time interval. No
/// argument changes the text around it, and the query is exactly as long as the fixed text
/// plus its arguments.
pub proof fn lemma_server_stat_arguments_in_fixed_places(
    table1: Seq<char>,
    interval1: Seq<char>,
    bucket1: Seq<char>,
    table2: Seq<char>,
    interval2: Seq<char>,
    bucket2: Seq<char>,
)
    ensures
        exists|head: Seq<char>, mid: Seq<char>, cols: Seq<char>, window: Seq<char>, tail: Seq<char>|
            server_stat_sql(table1, interval1, bucket1)
                == head + bucket1 + mid + bucket1 + cols + table1 + window + interval1 + tail
            && server_stat_sql(table2, interval2, bucket2)
                == head + bucket2 + mid + bucket2 + cols + table2 + window + interval2 + tail,
        server_stat_sql(table1, interval1, bucket1).len() == server_stat_sql(
            Seq::empty(),
            Seq::empty(),
            Seq::empty(),
        ).len() + table1.len() + interval1.len() + 2 * bucket1.len(),
{
    let head = SERVER_STAT_HEAD@;
    let mid = BUCKET_TIMES@;
    let cols = SERVER_STAT_COLUMNS@;
    let window = WINDOW_START@;
    let tail = WINDOW_END@;
    assert(server_stat_sql(table1, interval1, bucket1)
        == head + bucket1 + mid + bucket1 + cols + table1 + window + interval1 + tail);
    assert(server_stat_sql(table2, interval2, bucket2)
        == head + bucket2 + mid + bucket2 + cols + table2 + window + interval2 + tail);
}

/// A server series query starts by selecting the bucket time and the averages of cpu, memory and both network rates; it
/// buckets rows by `FLOOR(UNIX_TIMESTAMP(create_time) / bucket) * bucket`; and it reads
/// `table`, keeping live rows newer than `interval` seconds.
pub proof fn lemma_server_stat_reads(table: Seq<char>, interval: Seq<char>, bucket: Seq<char>)
    ensures
        ("\nSELECT\n    parted_time.bucket_time as create_time,\n"@ + "    ROUND(AVG(parted_time.cpu_usage), 1) AS cpu_usage,\n    ROUND(AVG(parted_time.memory_usage), 1) AS memory_usage,\n    ROUND(AVG(parted_time.net_send_rate), 1) AS net_send_rate,\n    ROUND(AVG(parted_time.net_recv_rate), 1) AS net_recv_rate\n"@).is_prefix_of(server_stat_sql(table, interval, bucket)),
        exists|pre: Seq<char>, post: Seq<char>|
            server_stat_sql(table, interval, bucket) == pre + ("FLOOR(UNIX_TIMESTAMP(create_time) / "@
                + bucket + ") * "@ + bucket + ")"@) + post,
        exists|pre: Seq<char>, post: Seq<char>|
            server_stat_sql(table, interval, bucket) == pre + ("    FROM "@ + table
                + "\n    WHERE create_time > DATE_SUB(NOW(), INTERVAL "@ + interval
                + " SECOND) AND deleted = 0\n"@) + post,
{
    lemma_series_fixed_texts();
    let h = SERVER_STAT_HEAD@;
    let c = SERVER_STAT_COLUMNS@;
    let w = WINDOW_END@;
    let h0 = h.subrange(0, h.len() - 36);
    let c1 = c.subrange(1, c.len() as int);
    let c0 = c.subrange(0, c.len() - 9);
    let w1 = w.subrange(25, w.len() as int);
    let hr = h.subrange(293, h.len() as int);
    lemma_regroup_bucket(h0, "FLOOR(UNIX_TIMESTAMP(create_time) / "@, bucket, BUCKET_TIMES@, ")"@,
        c1, table, WINDOW_START@, interval, w);
    lemma_regroup_window(h, bucket, BUCKET_TIMES@, c0, "    FROM "@, table, WINDOW_START@, interval,
        " SECOND) AND deleted = 0\n"@, w1);
    lemma_regroup_start("\nSELECT\n    parted_time.bucket_time as create_time,\n"@, "    ROUND(AVG(parted_time.cpu_usage), 1) AS cpu_usage,\n    ROUND(AVG(parted_time.memory_usage), 1) AS memory_usage,\n    ROUND(AVG(parted_time.net_send_rate), 1) AS net_send_rate,\n    ROUND(AVG(parted_time.net_recv_rate), 1) AS net_recv_rate\n"@, hr, bucket + BUCKET_TIMES@ + bucket + c + table + WINDOW_START@ + interval + w);
}

/// Any two Minecraft series queries are one fixed text with their own arguments written into
/// the same places: the bucket size twice, then the table, then the time interval. No
/// argument changes the text around it, and the query is exactly as long as the fixed text
/// plus its arguments.
pub proof fn lemma_mc_stat_arguments_in_fixed_places(
    table1: Seq<char>,
    interval1: Seq<char>,
    bucket1: Seq<char>,
    table2: Seq<char>,
    interval2: Seq<char>,
    bucket2: Seq<char>,
)
    ensures
        exists|head: Seq<char>, mid: Seq<char>, cols: Seq<char>, window: Seq<char>, tail: Seq<char>|
            mc_stat_sql(table1, interval1, bucket1)
                == head + bucket1 + mid + bucket1 + cols + table1 + window + interval1 + tail
            && mc_stat_sql(table2, interval2, bucket2)
                == head + bucket2 + mid + bucket2 + cols + table2 + window + interval2 + tail,
        mc_stat_sql(table1, interval1, bucket1).len() == mc_stat_sql(
            Seq::empty(),
            Seq::empty(),
            Seq::empty(),
        ).len() + table1.len() + interval1.len() + 2 * bucket1.len(),
{
    let head = MC_STAT_HEAD@;
    let mid = BUCKET_TIMES@;
    let cols = MC_STAT_COLUMNS@;
    let window = WINDOW_START@;
    let tail = WINDOW_END@;
    assert(mc_stat_sql(table1, interval1, bucket1)
        == head + bucket1 + mid + bucket1 + cols + table1 + window + interval1 + tail);
    assert(mc_stat_sql(table2, interval2, bucket2)
        == head + bucket2 + mid + bucket2 + cols + table2 + window + interval2 + tail);
}

/// A Minecraft series query starts by selecting the bucket time and the average latency and the peak player count; it
/// buckets rows by `FLOOR(UNIX_TIMESTAMP(create_time) / bucket) * bucket`; and it reads
/// `table`, keeping live rows newer than `interval` seconds.
pub proof fn lemma_mc_stat_reads(table: Seq<char>, interval: Seq<char>, bucket: Seq<char>)
    ensures
        ("\nSELECT\n    parted_time.bucket_time as create_time,\n"@ + "    ROUND(AVG(parted_time.latency), 1) AS latency,\n    MAX(parted_time.players) AS players\n"@).is_prefix_of(mc_stat_sql(table, interval, bucket)),
        exists|pre: Seq<char>, post: Seq<char>|
            mc_stat_sql(table, interval, bucket) == pre + ("FLOOR(UNIX_TIMESTAMP(create_time) / "@
                + bucket + ") * "@ + bucket + ")"@) + post,
        exists|pre: Seq<char>, post: Seq<char>|
            mc_stat_sql(table, interval, bucket) == pre + ("    FROM "@ + table
                + "\n    WHERE create_time > DATE_SUB(NOW(), INTERVAL "@ + interval
                + " SECOND) AND deleted = 0\n"@) + post,
{
    lemma_series_fixed_texts();
    let h = MC_STAT_HEAD@;
    let c = MC_STAT_COLUMNS@;
    let w = WINDOW_END@;
    let h0 = h.subrange(0, h.len() - 36);
    let c1 = c.subrange(1, c.len() as int);
    let c0 = c.subrange(0, c.len() - 9);
    let w1 = w.subrange(25, w.len() as int);
    let hr = h.subrange(143, h.len() as int);
    lemma_regroup_bucket(h0, "FLOOR(UNIX_TIMESTAMP(create_time) / "@, bucket, BUCKET_TIMES@, ")"@,
        c1, table, WINDOW_START@, interval, w);
    lemma_regroup_window(h, bucket, BUCKET_TIMES@, c0, "    FROM "@, table, WINDOW_START@, interval,
        " SECOND) AND deleted = 0\n"@, w1);
    lemma_regroup_start("\nSELECT\n    parted_time.bucket_time as create_time,\n"@, "    ROUND(AVG(parted_time.latency), 1) AS latency,\n    MAX(parted_time.players) AS players\n"@, hr, bucket + BUCKET_TIMES@ + bucket + c + table + WINDOW_START@ + interval + w);
}

/// The literal pieces of a current-aggregate query and of a current-players query.
proof fn lemma_current_fixed_texts()
    ensures
        "SELECT "@ + "AVG"@ == "SELECT AVG"@,
        "SELECT "@ + "STDDEV"@ == "SELECT STDDEV"@,
        " WHERE create_time > DATE_SUB(NOW(), INTERVAL "@ == " WHERE create_time > DATE_SUB(NOW(),"@
            + " INTERVAL "@,
        " WHERE create_time > DATE_SUB(NOW(), INTERVAL "@ == " WHERE "@
            + "create_time > DATE_SUB(NOW(), INTERVAL "@,
        "("@ + "cpu_usage"@ + ") FROM "@ == "(cpu_usage) FROM "@,
        "("@ + "memory_usage"@ + ") FROM "@ == "(memory_usage) FROM "@,
        "("@ + "latency"@ + ") FROM "@ == "(latency) FROM "@,
        " SECOND) "@ + "AND latency != 5000 "@ + "AND deleted = 0;"@
            == " SECOND) AND latency != 5000 AND deleted = 0;"@,
        " SECOND) "@ + Seq::<char>::empty() + "AND deleted = 0;"@ == " SECOND) AND deleted = 0;"@,
{
    reveal_strlit("SELECT ");
    reveal_strlit("AVG");
    reveal_strlit("STDDEV");
    reveal_strlit("SELECT AVG");
    reveal_strlit("SELECT STDDEV");
    reveal_strlit(" WHERE create_time > DATE_SUB(NOW(), INTERVAL ");
    reveal_strlit(" WHERE create_time > DATE_SUB(NOW(),");
    reveal_strlit(" INTERVAL ");
    reveal_strlit(" WHERE ");
    reveal_strlit("create_time > DATE_SUB(NOW(), INTERVAL ");
    reveal_strlit("(");
    reveal_strlit(") FROM ");
    reveal_strlit("cpu_usage");
    reveal_strlit("memory_usage");
    reveal_strlit("latency");
    reveal_strlit("(cpu_usage) FROM ");
    reveal_strlit("(memory_usage) FROM ");
    reveal_strlit("(latency) FROM ");
    reveal_strlit(" SECOND) ");
    reveal_strlit("AND latency != 5000 ");
    reveal_strlit("AND deleted = 0;");
    reveal_strlit(" SECOND) AND latency != 5000 AND deleted = 0;");
    reveal_strlit(" SECOND) AND deleted = 0;");
    assert("SELECT "@ + "AVG"@ =~= "SELECT AVG"@);
    assert("SELECT "@ + "STDDEV"@ =~= "SELECT STDDEV"@);
    assert(" WHERE create_time > DATE_SUB(NOW(), INTERVAL "@ =~= " WHERE create_time > DATE_SUB(NOW(),"@
        + " INTERVAL "@);
    assert(" WHERE create_time > DATE_SUB(NOW(), INTERVAL "@ =~= " WHERE "@
        + "create_time > DATE_SUB(NOW(), INTERVAL "@);
    assert("("@ + "cpu_usage"@ + ") FROM "@ =~= "(cpu_usage) FROM "@);
    assert("("@ + "memory_usage"@ + ") FROM "@ =~= "(memory_usage) FROM "@);
    assert("("@ + "latency"@ + ") FROM "@ =~= "(latency) FROM "@);
    assert(" SECOND) "@ + "AND latency != 5000 "@ + "AND deleted = 0;"@
        =~= " SECOND) AND latency != 5000 AND deleted = 0;"@);
    assert(" SECOND) "@ + Seq::<char>::empty() + "AND deleted = 0;"@ =~= " SECOND) AND deleted = 0;"@);
}

proof fn lemma_regroup_head(
    x0: Seq<char>, x1: Seq<char>, x2: Seq<char>, x3: Seq<char>, x4: Seq<char>, x5: Seq<char>,
    x6: Seq<char>, x7: Seq<char>, x8: Seq<char>, x9: Seq<char>, x10: Seq<char>,
)
    ensures
        x0 + x1 + x2 + x3 + x4 + x5 + x6 + x7 + x8 + x9 + x10
            == (x0 + x1) + (x2 + x3 + x4 + x5 + x6 + x7 + x8 + x9 + x10),
{
    assert(x0 + x1 + x2 + x3 + x4 + x5 + x6 + x7 + x8 + x9 + x10
        =~= (x0 + x1) + (x2 + x3 + x4 + x5 + x6 + x7 + x8 + x9 + x10));
}

proof fn lemma_regroup_interval(
    x0: Seq<char>, x1: Seq<char>, x2: Seq<char>, x3: Seq<char>, x4: Seq<char>, x5: Seq<char>,
    y: Seq<char>, z: Seq<char>, x7: Seq<char>, x8: Seq<char>, x9: Seq<char>, x10: Seq<char>,
)
    ensures
        x0 + x1 + x2 + x3 + x4 + x5 + (y + z) + x7 + x8 + x9 + x10
            == (x0 + x1 + x2 + x3 + x4 + x5 + y) + z + x7 + x8 + (x9 + x10),
{
    assert(x0 + x1 + x2 + x3 + x4 + x5 + (y + z) + x7 + x8 + x9 + x10
        =~= (x0 + x1 + x2 + x3 + x4 + x5 + y) + z + x7 + x8 + (x9 + x10));
}

proof fn lemma_regroup_column(
    x0: Seq<char>, x1: Seq<char>, x2: Seq<char>, x3: Seq<char>, x4: Seq<char>, x5: Seq<char>,
    y: Seq<char>, z: Seq<char>, x7: Seq<char>, x8: Seq<char>, x9: Seq<char>, x10: Seq<char>,
)
    ensures
        x0 + x1 + x2 + x3 + x4 + x5 + (y + z) + x7 + x8 + x9 + x10
            == (x0 + x1) + (x2 + x3 + x4) + x5 + y + (z + x7 + x8 + x9 + x10),
{
    assert(x0 + x1 + x2 + x3 + x4 + x5 + (y + z) + x7 + x8 + x9 + x10
        =~= (x0 + x1) + (x2 + x3 + x4) + x5 + y + (z + x7 + x8 + x9 + x10));
}

proof fn lemma_regroup_ending(
    x0: Seq<char>, x1: Seq<char>, x2: Seq<char>, x3: Seq<char>, x4: Seq<char>, x5: Seq<char>,
    x6: Seq<char>, x7: Seq<char>, x8: Seq<char>, x9: Seq<char>, x10: Seq<char>,
)
    ensures
        (x8 + x9 + x10).is_suffix_of(x0 + x1 + x2 + x3 + x4 + x5 + x6 + x7 + x8 + x9 + x10),
{
    let q = x0 + x1 + x2 + x3 + x4 + x5 + x6 + x7 + x8 + x9 + x10;
    assert((x8 + x9 + x10) =~= q.subrange(q.len() - (x8 + x9 + x10).len(), q.len() as int));
}

/// The Average and StandardDeviation queries of one measurement, table and window are the
/// same text except for the aggregate's name: neither the column, the table, the window
/// nor the latency filter depends on the compression type.
pub proof fn lemma_current_general_differs_only_in_aggregate(
    data_type: DataType,
    table: Seq<char>,
    interval: int,
)
    ensures
        exists|rest: Seq<char>|
            current_general_sql(CompressionType::Average, data_type, table, interval)
                == "SELECT AVG"@ + rest
            && current_general_sql(CompressionType::StandardDeviation, data_type, table, interval)
                == "SELECT STDDEV"@ + rest,
{
    lemma_current_fixed_texts();
    let col = measured_column(data_type);
    let filt = latency_filter(data_type);
    let w = " WHERE create_time > DATE_SUB(NOW(), INTERVAL "@;
    let rest = "("@ + col + ") FROM "@ + table + w + decimal(interval) + " SECOND) "@ + filt
        + "AND deleted = 0;"@;
    lemma_regroup_head("SELECT "@, "AVG"@, "("@, col, ") FROM "@, table, w, decimal(interval),
        " SECOND) "@, filt, "AND deleted = 0;"@);
    lemma_regroup_head("SELECT "@, "STDDEV"@, "("@, col, ") FROM "@, table, w, decimal(interval),
        " SECOND) "@, filt, "AND deleted = 0;"@);
    assert(current_general_sql(CompressionType::Average, data_type, table, interval)
        == "SELECT AVG"@ + rest);
}

/// The window of a current-aggregate query is written once, as `INTERVAL <interval> SECOND`,
/// and changing the interval changes nothing else: the queries for two intervals are one
/// text with the two decimal renderings in the same place.
pub proof fn lemma_current_general_window(
    compression_type: CompressionType,
    data_type: DataType,
    table: Seq<char>,
    interval1: int,
    interval2: int,
)
    ensures
        exists|pre: Seq<char>, post: Seq<char>|
            current_general_sql(compression_type, data_type, table, interval1)
                == pre + " INTERVAL "@ + decimal(interval1) + " SECOND) "@ + post
            && current_general_sql(compression_type, data_type, table, interval2)
                == pre + " INTERVAL "@ + decimal(interval2) + " SECOND) "@ + post,
{
    lemma_current_fixed_texts();
    let agg = aggregate_function(compression_type);
    let col = measured_column(data_type);
    let filt = latency_filter(data_type);
    let y = " WHERE create_time > DATE_SUB(NOW(),"@;
    let z = " INTERVAL "@;
    let pre = "SELECT "@ + agg + "("@ + col + ") FROM "@ + table + y;
    let post = filt + "AND deleted = 0;"@;
    lemma_regroup_interval("SELECT "@, agg, "("@, col, ") FROM "@, table, y, z, decimal(interval1),
        " SECOND) "@, filt, "AND deleted = 0;"@);
    lemma_regroup_interval("SELECT "@, agg, "("@, col, ") FROM "@, table, y, z, decimal(interval2),
        " SECOND) "@, filt, "AND deleted = 0;"@);
    assert(current_general_sql(compression_type, data_type, table, interval1)
        == pre + z + decimal(interval1) + " SECOND) "@ + post);
}

/// A current-aggregate query aggregates the column of its measurement, `cpu_usage`,
/// `memory_usage` or `latency`, whatever the compression type, over the table it is
/// given; changing the table changes nothing else.
pub proof fn lemma_current_general_column_and_table(
    compression_type: CompressionType,
    data_type: DataType,
    table1: Seq<char>,
    table2: Seq<char>,
    interval: int,
)
    ensures
        data_type == DataType::CPU ==> exists|pre: Seq<char>, post: Seq<char>|
            current_general_sql(compression_type, data_type, table1, interval)
                == pre + "(cpu_usage) FROM "@ + table1 + " WHERE "@ + post
            && current_general_sql(compression_type, data_type, table2, interval)
                == pre + "(cpu_usage) FROM "@ + table2 + " WHERE "@ + post,
        data_type == DataType::Memory ==> exists|pre: Seq<char>, post: Seq<char>|
            current_general_sql(compression_type, data_type, table1, interval)
                == pre + "(memory_usage) FROM "@ + table1 + " WHERE "@ + post
            && current_general_sql(compression_type, data_type, table2, interval)
                == pre + "(memory_usage) FROM "@ + table2 + " WHERE "@ + post,
        data_type == DataType::Latency ==> exists|pre: Seq<char>, post: Seq<char>|
            current_general_sql(compression_type, data_type, table1, interval)
                == pre + "(latency) FROM "@ + table1 + " WHERE "@ + post
            && current_general_sql(compression_type, data_type, table2, interval)
                == pre + "(latency) FROM "@ + table2 + " WHERE "@ + post,
{
    lemma_current_fixed_texts();
    let agg = aggregate_function(compression_type);
    let col = measured_column(data_type);
    let filt = latency_filter(data_type);
    let y = " WHERE "@;
    let z = "create_time > DATE_SUB(NOW(), INTERVAL "@;
    let pre = "SELECT "@ + agg;
    let post = z + decimal(interval) + " SECOND) "@ + filt + "AND deleted = 0;"@;
    lemma_regroup_column("SELECT "@, agg, "("@, col, ") FROM "@, table1, y, z, decimal(interval),
        " SECOND) "@, filt, "AND deleted = 0;"@);
    lemma_regroup_column("SELECT "@, agg, "("@, col, ") FROM "@, table2, y, z, decimal(interval),
        " SECOND) "@, filt, "AND deleted = 0;"@);
    assert(current_general_sql(compression_type, data_type, table1, interval)
        == pre + ("("@ + col + ") FROM "@) + table1 + y + post);
}

/// A current-aggregate query keeps only live rows, and a latency query also leaves out
/// the rows holding the 5000 ms timeout marker; cpu and memory queries filter nothing else.
pub proof fn lemma_current_general_ending(
    compression_type: CompressionType,
    data_type: DataType,
    table: Seq<char>,
    interval: int,
)
    ensures
        data_type == DataType::Latency ==> (" SECOND) AND latency != 5000 AND deleted = 0;"@).is_suffix_of(
            current_general_sql(compression_type, data_type, table, interval),
        ),
        data_type != DataType::Latency ==> (" SECOND) AND deleted = 0;"@).is_suffix_of(
            current_general_sql(compression_type, data_type, table, interval),
        ),
{
    lemma_current_fixed_texts();
    let agg = aggregate_function(compression_type);
    let col = measured_column(data_type);
    let filt = latency_filter(data_type);
    lemma_regroup_ending("SELECT "@, agg, "("@, col, ") FROM "@, table,
        " WHERE create_time > DATE_SUB(NOW(), INTERVAL "@, decimal(interval), " SECOND) "@, filt,
        "AND deleted = 0;"@);
}

/// The current-players query of any two tables is one text with the table in the same
/// place: only the table name changes with the table.
pub proof fn lemma_current_players_table_only(table1: Seq<char>, table2: Seq<char>)
    ensures
        exists|pre: Seq<char>, post: Seq<char>|
            current_players_sql(table1) == pre + table1 + post
            && current_players_sql(table2) == pre + table2 + post,
{
    assert(current_players_sql(table1) == "SELECT players FROM "@ + table1
        + " WHERE deleted = 0 ORDER BY create_time DESC LIMIT 1;"@);
}

/// The current-players query selects `players` from the table and reads only the newest
/// live row: it orders by `create_time` descending and keeps one row, with nothing else
/// in the text.
pub proof fn lemma_current_players_newest(table: Seq<char>)
    ensures
        ("SELECT players FROM "@ + table).is_prefix_of(current_players_sql(table)),
        (" WHERE deleted = 0 ORDER BY create_time DESC LIMIT 1;"@).is_suffix_of(
            current_players_sql(table),
        ),
        current_players_sql(table).len() == 20 + table.len() + 53,
{
    reveal_strlit("SELECT players FROM ");
    reveal_strlit(" WHERE deleted = 0 ORDER BY create_time DESC LIMIT 1;");
    let q = current_players_sql(table);
    let pre = "SELECT players FROM "@ + table;
    let suf = " WHERE deleted = 0 ORDER BY create_time DESC LIMIT 1;"@;
    assert(pre =~= q.subrange(0, pre.len() as int));
    assert(suf =~= q.subrange(q.len() - suf.len(), q.len() as int));
}

} // verus!

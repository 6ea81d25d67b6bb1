//! The settings of a run: their defaults, which of them are refused, and the banner.

use crate::reading::{reads_as, Found, Part};
use crate::text::{decimal, push_decimal, push_signed_decimal, signed_decimal, texts};
use vstd::prelude::*;

verus! {

pub const DEFAULT_CONCURRENCY: usize = 10;

pub const DEFAULT_DURATION: u64 = 30;

pub const DEFAULT_SAMPLE_SIZE: usize = 2000;

pub const DEFAULT_DAYS_BACK: i64 = 7;

pub const DEFAULT_MAKER_COUNT: usize = 500;

pub const DEFAULT_QUERY: u8 = 1;

/// Connections kept beside one per worker.
pub const SPARE_CONNECTIONS: u32 = 10;

/// The settings of a run.
#[derive(Debug)]
pub struct Args {
    /// Where the database is.
    pub url: String,
    /// How many workers run at once.
    pub concurrency: usize,
    /// How many seconds the run lasts.
    pub duration: u64,
    /// How many samples of each token are taken.
    pub sample_size: usize,
    /// The longest window of time, in days.
    pub days_back: i64,
    /// Whether every statement is shown.
    pub verbose: bool,
    /// Whether every answer is compared with that of the primary index.
    pub verify: bool,
    /// How many makers a query of the first type asks for, where there are as many.
    pub maker_count: usize,
    /// The query type to run.
    pub query: u8,
}

/// Why settings are refused.
#[derive(Clone, Copy, PartialEq, Eq, Debug, Structural)]
pub enum ArgsError {
    /// The longest window is shorter than a day.
    DaysBack,
    /// There is no such query type.
    Query,
}

impl ArgsError {
    /// What the user is told.
    pub open spec fn text(self) -> Seq<char> {
        match self {
            ArgsError::DaysBack => "❌ --days-back must be at least 1"@,
            ArgsError::Query => "❌ --query must be between 1 and 10"@,
        }
    }

    /// What the user is told.
    pub fn message(self) -> (r: &'static str)
        ensures
            r@ == self.text(),
    {
        match self {
            ArgsError::DaysBack => "❌ --days-back must be at least 1",
            ArgsError::Query => "❌ --query must be between 1 and 10",
        }
    }
}

impl Args {
    /// Whether the settings can be run with. The window is looked at first.
    pub fn validate(&self) -> (r: Result<(), ArgsError>)
        ensures
            r is Ok <==> self.days_back >= 1 && 1 <= self.query <= 10,
            r == Err::<(), ArgsError>(ArgsError::DaysBack) <==> self.days_back < 1,
            r == Err::<(), ArgsError>(ArgsError::Query) <==> self.days_back >= 1 && !(1
                <= self.query <= 10),
    {
        if self.days_back < 1 {
            return Err(ArgsError::DaysBack);
        }
        if self.query < 1 || self.query > 10 {
            return Err(ArgsError::Query);
        }
        Ok(())
    }

    /// The lines that open a run.
    pub open spec fn banner_texts(self) -> Seq<Seq<char>> {
        seq![
            "--- Starting Solana DEX Benchmark (UNION ALL Query "@ + decimal(self.query as nat)
                + ") ---"@,
            "Concurrency: "@ + decimal(self.concurrency as nat),
            "Sample Size: "@ + decimal(self.sample_size as nat),
            "Max Days Back: "@ + signed_decimal(self.days_back as int),
            "Logging: "@ + if self.verbose {
                "ENABLED (Full SQL)"@
            } else {
                "DISABLED"@
            },
        ]
    }

    /// The lines that open a run.
    pub fn banner(&self) -> (r: Vec<String>)
        ensures
            texts(r@) == self.banner_texts(),
    {
        let mut lines: Vec<String> = Vec::new();
        let mut title = "--- Starting Solana DEX Benchmark (UNION ALL Query ".to_owned();
        push_decimal(&mut title, self.query as u128);
        title.append(") ---");
        lines.push(title);
        let mut concurrency = "Concurrency: ".to_owned();
        push_decimal(&mut concurrency, self.concurrency as u128);
        lines.push(concurrency);
        let mut sample_size = "Sample Size: ".to_owned();
        push_decimal(&mut sample_size, self.sample_size as u128);
        lines.push(sample_size);
        let mut days_back = "Max Days Back: ".to_owned();
        push_signed_decimal(&mut days_back, self.days_back);
        lines.push(days_back);
        let mut logging = "Logging: ".to_owned();
        if self.verbose {
            logging.append("ENABLED (Full SQL)");
        } else {
            logging.append("DISABLED");
        }
        lines.push(logging);
        assert(texts(lines@) =~= self.banner_texts());
        lines
    }
}

impl Args {
    /// The name under which the latencies are reported.
    pub open spec fn query_text(self) -> Seq<char> {
        "Union Query "@ + decimal(self.query as nat)
    }

    /// The name under which the latencies are reported.
    pub fn query_name(&self) -> (r: String)
        ensures
            r@ == self.query_text(),
    {
        let mut name = "Union Query ".to_owned();
        push_decimal(&mut name, self.query as u128);
        name
    }
}

/// The lines that open a run hold the query type, the number of workers, the number of samples
/// and the longest window, each in a line of its own and in that order, and then whether every
/// statement is shown.
pub proof fn banner_reads_back(args: Args)
    ensures
        ({
            let lines = args.banner_texts();
            &&& lines.len() == 5
            &&& reads_as(
                lines[0],
                seq![
                    Part::Fixed("--- Starting Solana DEX Benchmark (UNION ALL Query "@),
                    Part::Number,
                    Part::Fixed(") ---"@),
                ],
                seq![Found::Number(args.query as int)],
            )
            &&& reads_as(
                lines[1],
                seq![Part::Fixed("Concurrency: "@), Part::Number],
                seq![Found::Number(args.concurrency as int)],
            )
            &&& reads_as(
                lines[2],
                seq![Part::Fixed("Sample Size: "@), Part::Number],
                seq![Found::Number(args.sample_size as int)],
            )
            &&& reads_as(
                lines[3],
                seq![Part::Fixed("Max Days Back: "@), Part::Integer],
                seq![Found::Number(args.days_back as int)],
            )
            &&& args.verbose ==> lines[4] == "Logging: "@ + "ENABLED (Full SQL)"@
            &&& !args.verbose ==> lines[4] == "Logging: "@ + "DISABLED"@
        }),
        reads_as(
            args.query_text(),
            seq![Part::Fixed("Union Query "@), Part::Number],
            seq![Found::Number(args.query as int)],
        ),
{
    reveal_strlit(") ---");
    crate::reading::number_between_reads(
        "--- Starting Solana DEX Benchmark (UNION ALL Query "@,
        args.query as nat,
        ") ---"@,
    );
    crate::reading::number_behind_reads("Concurrency: "@, args.concurrency as nat);
    crate::reading::number_behind_reads("Sample Size: "@, args.sample_size as nat);
    crate::reading::integer_behind_reads("Max Days Back: "@, args.days_back as int);
    crate::reading::number_behind_reads("Union Query "@, args.query as nat);
}

/// The connections for so many workers: one each, counted in 32 bits, and the spare ones.
pub open spec fn connections_for(concurrency: usize) -> int {
    (concurrency as int) % 0x1_0000_0000 + SPARE_CONNECTIONS
}

/// The connections for so many workers.
pub fn max_connections(concurrency: usize) -> (r: u32)
    requires
        connections_for(concurrency) <= u32::MAX,
    ensures
        r == connections_for(concurrency),
        concurrency <= u32::MAX ==> r == concurrency + 10,
        r >= 10 && (r - 10) % 0x1_0000_0000 == (concurrency as int) % 0x1_0000_0000,
{
    let wide: u64 = concurrency as u64;
    let low: u64 = wide % 0x1_0000_0000;
    low as u32 + SPARE_CONNECTIONS
}

} // verus!

//! What the reports are made of: the lines of the list of cards, the sheets
//! of a trend, and the rows of average prices.
//!
//! Nothing is written here. The rows are made, and whoever asks writes them.

use crate::analyze::AnalyzeDealTrendNode;
use crate::card_id::NftCardId;
use crate::decimal::NumericError;
use crate::market_home::MarketHomeResponse;
use crate::market_secondary::Secondary;
use crate::sequences::lemma_filter_next;
use crate::strategy::{sum_top_prices, thousandth_divisor, top_sum};
use crate::text::{followed_by, digit_char, digit_text, digits_of, number_text, str_eq};
use vstd::prelude::*;
use vstd::string::*;

verus! {

/// How many rows the marketplace puts on one page of the list of cards.
pub const LIST_PAGE_SIZE: u32 = 20;

/// How many pages are asked for to get `total` rows: one more than the full
/// pages.
pub fn pages_of(total: u32) -> (pages: u32)
    ensures
        pages == total / LIST_PAGE_SIZE + 1,
{
    total / LIST_PAGE_SIZE + 1
}

/// The name under which the gold card of the card named `name` is listed.
pub fn gold_name(name: &str) -> (gold: String)
    ensures
        gold@ == name@ + "Gold"@,
{
    followed_by(name, "Gold")
}

/// The line of the list for the card named `name` with the number `id`.
pub open spec fn card_line_of(name: Seq<char>, id: u32) -> Seq<char> {
    name + " = "@ + digits_of(id as nat) + ","@
}

/// Gives the line of the list for the card named `name` with the number
/// `id`: the name, ` = `, the number, and a comma.
pub fn card_line(name: &str, id: u32) -> (line: String)
    ensures
        line@ == card_line_of(name@, id),
{
    let mut line = followed_by(name, " = ");
    let number = number_text(id as u128);
    line.append(number.as_str());
    line.append(",");
    line
}

/// Gives the lines of the list of cards: one for every plain row, under its
/// name, then one for every gold row, under its name with `Gold` behind it.
pub fn card_lines(plain: &Vec<Secondary>, gold: &Vec<Secondary>) -> (lines: Vec<String>)
    ensures
        lines@.len() == plain@.len() + gold@.len(),
        forall|i: int|
            0 <= i < plain@.len() ==> (#[trigger] lines@[i])@ == card_line_of(
                plain@[i].secondary_name@,
                plain@[i].secondary_id,
            ),
        forall|i: int|
            0 <= i < gold@.len() ==> (#[trigger] lines@[plain@.len() + i])@ == card_line_of(
                gold@[i].secondary_name@ + "Gold"@,
                gold@[i].secondary_id,
            ),
{
    let mut lines: Vec<String> = Vec::new();
    let mut i: usize = 0;
    while i < plain.len()
        invariant
            i <= plain@.len(),
            lines@.len() == i,
            forall|k: int|
                0 <= k < i ==> (#[trigger] lines@[k])@ == card_line_of(
                    plain@[k].secondary_name@,
                    plain@[k].secondary_id,
                ),
        decreases plain@.len() - i,
    {
        lines.push(card_line(plain[i].secondary_name.as_str(), plain[i].secondary_id));
        i += 1;
    }
    let mut j: usize = 0;
    while j < gold.len()
        invariant
            j <= gold@.len(),
            lines@.len() == plain@.len() + j,
            forall|k: int|
                0 <= k < plain@.len() ==> (#[trigger] lines@[k])@ == card_line_of(
                    plain@[k].secondary_name@,
                    plain@[k].secondary_id,
                ),
            forall|k: int|
                0 <= k < j ==> (#[trigger] lines@[plain@.len() + k])@ == card_line_of(
                    gold@[k].secondary_name@ + "Gold"@,
                    gold@[k].secondary_id,
                ),
        decreases gold@.len() - j,
    {
        let name = gold_name(gold[j].secondary_name.as_str());
        lines.push(card_line(name.as_str(), gold[j].secondary_id));
        j += 1;
    }
    lines
}

/// The trade of one card on one day.
#[derive(Debug)]
pub struct CardDealTrend {
    /// The number of the card.
    pub name: u32,
    pub max_value: String,
    pub total_value: String,
    pub avg_value: String,
    pub count: u32,
    pub min_value: String,
}

impl Clone for CardDealTrend {
    fn clone(&self) -> (copy: Self)
        ensures
            copy == *self,
    {
        CardDealTrend {
            name: self.name,
            max_value: self.max_value.clone(),
            total_value: self.total_value.clone(),
            avg_value: self.avg_value.clone(),
            count: self.count,
            min_value: self.min_value.clone(),
        }
    }
}

impl CardDealTrend {
    /// The trade of card `name` that `node` tells of.
    pub fn from_node(name: u32, node: &AnalyzeDealTrendNode) -> (trend: CardDealTrend)
        ensures
            trend.name == name,
            trend.max_value == node.max_value,
            trend.total_value == node.total_value,
            trend.avg_value == node.avg_value,
            trend.count == node.count,
            trend.min_value == node.min_value,
    {
        CardDealTrend {
            name,
            max_value: node.max_value.clone(),
            total_value: node.total_value.clone(),
            avg_value: node.avg_value.clone(),
            count: node.count,
            min_value: node.min_value.clone(),
        }
    }

    /// The row of this trade on a sheet: the Chinese name of the card, the
    /// count, and the average, lowest, highest and total value. `None`
    /// exactly when the catalog has no card of this number.
    pub fn row(&self) -> (row: Option<Vec<String>>)
        ensures
            match row {
                Some(cells) => {
                    &&& cells@.len() == 6
                    &&& exists|card: NftCardId|
                        card.wire_code() == self.name && cells@[0]@ == #[trigger] card.name_cn()
                    &&& cells@[1]@ == digits_of(self.count as nat)
                    &&& cells@[2] == self.avg_value
                    &&& cells@[3] == self.min_value
                    &&& cells@[4] == self.max_value
                    &&& cells@[5] == self.total_value
                },
                None => forall|card: NftCardId| #[trigger] card.wire_code() != self.name,
            },
    {
        let card = match NftCardId::from_id(self.name) {
            Some(card) => card,
            None => {
                return None;
            },
        };
        let mut cells: Vec<String> = Vec::new();
        cells.push(card.to_chinese().to_string());
        cells.push(number_text(self.count as u128));
        cells.push(self.avg_value.clone());
        cells.push(self.min_value.clone());
        cells.push(self.max_value.clone());
        cells.push(self.total_value.clone());
        assert(cells@[0]@ == card.name_cn());
        Some(cells)
    }
}

/// The day of a moment, written as year, month and day in the manner of
/// `2024-03-09`, in universal time; `None` where the moment is out of the
/// range of the calendar. The moment is given in milliseconds since the
/// start of 1970.
pub uninterp spec fn utc_day(millis: i64) -> Option<Seq<char>>;

/// Writes the day of a moment with `chrono::DateTime::from_timestamp_millis`
/// and `DateTime::format` with the pattern `%Y-%m-%d`. The text is what
/// `chrono` gives for this moment, and `None` comes exactly when `chrono`
/// has no date for it.
#[verifier::external_body]
fn format_day(millis: i64) -> (day: Option<String>)
    ensures
        match day {
            Some(text) => utc_day(millis) == Some(text@),
            None => utc_day(millis) is None,
        },
{
    chrono::DateTime::from_timestamp_millis(millis).map(|moment| {
        moment.format("%Y-%m-%d").to_string()
    })
}

/// The day of a moment as the marketplace gives it, in milliseconds since
/// the start of 1970.
pub open spec fn day_of_moment(timestamp: u64) -> Option<Seq<char>> {
    if timestamp > i64::MAX {
        None
    } else {
        utc_day(timestamp as i64)
    }
}

/// Gives the day of a moment as the marketplace gives it.
pub fn day_of(timestamp: u64) -> (day: Option<String>)
    ensures
        match day {
            Some(text) => day_of_moment(timestamp) == Some(text@),
            None => day_of_moment(timestamp) is None,
        },
{
    if timestamp > 0x7fff_ffff_ffff_ffff {
        None
    } else {
        format_day(timestamp as i64)
    }
}

/// The trade of one card on one day, with the day.
#[derive(Debug)]
pub struct DatedTrend {
    pub day: String,
    pub trend: CardDealTrend,
}

/// One sheet of the report: a day, and the trade of that day.
#[derive(Debug)]
pub struct DaySheet {
    pub day: String,
    pub rows: Vec<CardDealTrend>,
}

/// The trade of the day `day` among `entries`, in the order of `entries`.
pub open spec fn trends_of_day(entries: Seq<DatedTrend>, day: Seq<char>) -> Seq<CardDealTrend> {
    entries.filter(|entry: DatedTrend| entry.day@ == day).map_values(
        |entry: DatedTrend| entry.trend,
    )
}

/// Whether some entry of `entries` is of the day `day`.
pub open spec fn has_day(entries: Seq<DatedTrend>, day: Seq<char>) -> bool {
    exists|i: int| 0 <= i < entries.len() && (#[trigger] entries[i]).day@ == day
}

/// Whether `days` lists the day `day`.
pub open spec fn lists_day(days: Seq<String>, day: Seq<char>) -> bool {
    exists|a: int| 0 <= a < days.len() && (#[trigger] days[a])@ == day
}

/// Whether `days` holds each day of `entries` once, and nothing else.
pub open spec fn are_days_of(days: Seq<String>, entries: Seq<DatedTrend>) -> bool {
    &&& forall|a: int, b: int| 0 <= a < b < days.len() ==> days[a]@ != days[b]@
    &&& forall|a: int| 0 <= a < days.len() ==> has_day(entries, (#[trigger] days[a])@)
    &&& forall|i: int| 0 <= i < entries.len() ==> lists_day(days, (#[trigger] entries[i]).day@)
}

/// Gives the days of `entries`, each once, in the order in which they first
/// come.
pub fn distinct_days(entries: &Vec<DatedTrend>) -> (days: Vec<String>)
    ensures
        are_days_of(days@, entries@),
{
    let mut days: Vec<String> = Vec::new();
    let mut i: usize = 0;
    while i < entries.len()
        invariant
            i <= entries@.len(),
            are_days_of(days@, entries@.take(i as int)),
        decreases entries@.len() - i,
    {
        let ghost before = days@;
        let ghost shorter = entries@.take(i as int);
        let ghost longer = entries@.take(i as int + 1);
        let mut known = false;
        let mut a: usize = 0;
        while a < days.len()
            invariant
                a <= days@.len(),
                i < entries@.len(),
                known <==> lists_day(days@.take(a as int), entries@[i as int].day@),
            decreases days@.len() - a,
        {
            proof {
                let day = entries@[i as int].day@;
                let fewer = days@.take(a as int);
                let more = days@.take(a as int + 1);
                if lists_day(fewer, day) {
                    let b = choose|b: int| 0 <= b < fewer.len() && (#[trigger] fewer[b])@ == day;
                    assert(more[b]@ == day);
                }
                if days@[a as int]@ == day {
                    assert(more[a as int]@ == day);
                }
                if lists_day(more, day) {
                    let b = choose|b: int| 0 <= b < more.len() && (#[trigger] more[b])@ == day;
                    if b < a {
                        assert(fewer[b]@ == day);
                    }
                }
            }
            if str_eq(days[a].as_str(), entries[i].day.as_str()) {
                known = true;
            }
            a += 1;
        }
        assert(days@.take(days@.len() as int) =~= days@);
        if !known {
            days.push(entries[i].day.clone());
        }
        proof {
            assert forall|x: int, y: int| 0 <= x < y < days@.len() implies days@[x]@
                != days@[y]@ by {
                if y < before.len() {
                    assert(before[x]@ != before[y]@);
                } else {
                    assert(days@[y]@ == entries@[i as int].day@);
                    assert(before[x]@ == days@[x]@);
                }
            }
            assert forall|x: int| 0 <= x < days@.len() implies has_day(
                longer,
                (#[trigger] days@[x])@,
            ) by {
                if x < before.len() {
                    assert(has_day(shorter, before[x]@));
                    let k = choose|k: int|
                        0 <= k < shorter.len() && (#[trigger] shorter[k]).day@ == before[x]@;
                    assert(longer[k].day@ == days@[x]@);
                } else {
                    assert(longer[i as int].day@ == days@[x]@);
                }
            }
            assert forall|k: int| 0 <= k < longer.len() implies lists_day(
                days@,
                (#[trigger] longer[k]).day@,
            ) by {
                if k < i {
                    assert(shorter[k] == longer[k]);
                    assert(lists_day(before, shorter[k].day@));
                    let x = choose|x: int|
                        0 <= x < before.len() && (#[trigger] before[x])@ == shorter[k].day@;
                    assert(days@[x]@ == longer[k].day@);
                } else if known {
                    let x = choose|x: int|
                        0 <= x < before.len() && (#[trigger] before[x])@ == entries@[i as int].day@;
                    assert(days@[x]@ == longer[k].day@);
                } else {
                    assert(days@[before.len() as int]@ == longer[k].day@);
                }
            }
        }
        i += 1;
    }
    assert(entries@.take(entries@.len() as int) =~= entries@);
    days
}

/// Gives the trade of the day `day` among `entries`, in the order of
/// `entries`.
pub fn rows_of_day(entries: &Vec<DatedTrend>, day: &str) -> (rows: Vec<CardDealTrend>)
    ensures
        rows@ == trends_of_day(entries@, day@),
{
    let mut rows: Vec<CardDealTrend> = Vec::new();
    let mut i: usize = 0;
    let ghost same_day = |entry: DatedTrend| entry.day@ == day@;
    let ghost trend = |entry: DatedTrend| entry.trend;
    while i < entries.len()
        invariant
            i <= entries@.len(),
            same_day == |entry: DatedTrend| entry.day@ == day@,
            trend == |entry: DatedTrend| entry.trend,
            rows@ == entries@.take(i as int).filter(same_day).map_values(trend),
        decreases entries@.len() - i,
    {
        proof {
            lemma_filter_next(entries@, same_day, i as int);
        }
        if str_eq(entries[i].day.as_str(), day) {
            rows.push(entries[i].trend.clone());
            assert(rows@ =~= entries@.take(i as int + 1).filter(same_day).map_values(trend));
        }
        i += 1;
    }
    assert(entries@.take(entries@.len() as int) =~= entries@);
    rows
}

/// Sorts the trade into sheets: one sheet for every day of `entries`, in the
/// order in which the days first come, each with all the trade of its day in
/// the order of `entries`.
pub fn group_by_day(entries: &Vec<DatedTrend>) -> (sheets: Vec<DaySheet>)
    ensures
        are_days_of(sheets@.map_values(|sheet: DaySheet| sheet.day), entries@),
        forall|g: int|
            0 <= g < sheets@.len() ==> (#[trigger] sheets@[g]).rows@ == trends_of_day(
                entries@,
                sheets@[g].day@,
            ),
{
    let days = distinct_days(entries);
    let mut sheets: Vec<DaySheet> = Vec::new();
    let mut g: usize = 0;
    while g < days.len()
        invariant
            g <= days@.len(),
            sheets@.len() == g,
            forall|h: int| 0 <= h < g ==> (#[trigger] sheets@[h]).day == days@[h],
            forall|h: int|
                0 <= h < g ==> (#[trigger] sheets@[h]).rows@ == trends_of_day(
                    entries@,
                    sheets@[h].day@,
                ),
        decreases days@.len() - g,
    {
        let rows = rows_of_day(entries, days[g].as_str());
        sheets.push(DaySheet { day: days[g].clone(), rows });
        g += 1;
    }
    assert(sheets@.map_values(|sheet: DaySheet| sheet.day) =~= days@);
    sheets
}

/// The heads of the columns of a sheet of trade: name, count, and average,
/// lowest, highest and total value.
pub open spec fn trend_heads() -> Seq<Seq<char>> {
    seq!["名字"@, "成交数量"@, "平均成交额"@, "最低成交额"@, "最高成交额"@, "总成交额"@]
}

/// Gives the heads of the columns of a sheet of trade.
pub fn deal_trend_header() -> (header: Vec<&'static str>)
    ensures
        header@.len() == trend_heads().len(),
        forall|i: int| 0 <= i < header@.len() ==> (#[trigger] header@[i])@ == trend_heads()[i],
{
    let mut header: Vec<&'static str> = Vec::new();
    header.push("名字");
    header.push("成交数量");
    header.push("平均成交额");
    header.push("最低成交额");
    header.push("最高成交额");
    header.push("总成交额");
    header
}

/// A number of thousandths written with three digits after the point.
pub open spec fn thousandths(r: nat) -> Seq<char> {
    digits_of(r / 1000) + seq![
        '.',
        digit_char(r % 1000 / 100),
        digit_char(r % 100 / 10),
        digit_char(r % 10),
    ]
}

/// Writes a number of thousandths with three digits after the point.
pub fn thousandths_text(r: u128) -> (text: String)
    ensures
        text@ == thousandths(r as nat),
{
    proof {
        reveal_strlit(".");
    }
    let mut text = number_text(r / 1000);
    text.append(".");
    text.append(digit_text((r % 1000 / 100) as u8));
    text.append(digit_text((r % 100 / 10) as u8));
    text.append(digit_text((r % 10) as u8));
    assert(text@ =~= thousandths(r as nat));
    text
}

/// Why a row of average prices could not be made.
#[derive(Debug, Clone, Copy, PartialEq, Eq, Structural)]
pub enum ReportError {
    /// The catalog has no card of this number.
    UnknownCard,
    /// The average cannot be worked out.
    Price(NumericError),
}

/// Gives the row of average prices for card `card`: its Chinese name, its
/// English name, and the average of the prices of its first five offers per
/// unit of experience, rounded to thousandths.
pub fn realtime_row(card: u32, response: &MarketHomeResponse) -> (row: Result<
    Vec<String>,
    ReportError,
>)
    ensures
        match row {
            Ok(cells) => {
                &&& cells@.len() == 3
                &&& exists|id: NftCardId|
                    id.wire_code() == card && cells@[0]@ == #[trigger] id.name_cn() && cells@[1]@
                        == id.name_en()
                &&& top_sum(response.list@) matches Ok(sum)
                &&& exists|r: nat|
                    cells@[2]@ == #[trigger] thousandths(r) && 2 * thousandth_divisor(sum.1) * r
                        <= 2 * sum.0 + thousandth_divisor(sum.1) < 2 * thousandth_divisor(sum.1)
                        * (r + 1)
            },
            Err(ReportError::UnknownCard) => forall|id: NftCardId|
                #[trigger] id.wire_code() != card,
            Err(ReportError::Price(e)) => match top_sum(response.list@) {
                Err(expected) => e == expected,
                Ok(sum) => e == NumericError::Overflow && (2 * sum.0 + thousandth_divisor(sum.1)
                    > u128::MAX || 2 * thousandth_divisor(sum.1) > u128::MAX),
            },
        },
{
    let id = match NftCardId::from_id(card) {
        Some(id) => id,
        None => {
            return Err(ReportError::UnknownCard);
        },
    };
    let sum = match sum_top_prices(&response.list) {
        Ok(sum) => sum,
        Err(e) => {
            return Err(ReportError::Price(e));
        },
    };
    let average = match sum.average_thousandths() {
        Some(average) => average,
        None => {
            return Err(ReportError::Price(NumericError::Overflow));
        },
    };
    let mut cells: Vec<String> = Vec::new();
    cells.push(id.to_chinese().to_string());
    cells.push(id.to_string());
    cells.push(thousandths_text(average));
    proof {
        assert(cells@[0]@ == id.name_cn());
        assert(cells@[2]@ == thousandths(average as nat));
    }
    Ok(cells)
}

/// The heads of the columns of the report of average prices: Chinese name,
/// English name, and average price.
pub open spec fn realtime_heads() -> Seq<Seq<char>> {
    seq!["名字"@, "英文"@, "均价"@]
}

/// Gives the heads of the columns of the report of average prices.
pub fn realtime_header() -> (header: Vec<&'static str>)
    ensures
        header@.len() == realtime_heads().len(),
        forall|i: int| 0 <= i < header@.len() ==> (#[trigger] header@[i])@ == realtime_heads()[i],
{
    let mut header: Vec<&'static str> = Vec::new();
    header.push("名字");
    header.push("英文");
    header.push("均价");
    header
}

} // verus!

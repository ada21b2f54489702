//! The line that shows an item with its prices.

use vstd::prelude::*;
use vstd::string::*;
use num_format::{SystemLocale, ToFormattedString};
use crate::matcher::{entries, get_matching_items, matching};
use crate::model::{ItemMapping, PriceResult, PriceResults};

verus! {

/// The number format of the machine's locale.
#[verifier::external_type_specification]
#[verifier::external_body]
pub struct ExSystemLocale(SystemLocale);

/// Calls `SystemLocale::default`, which asks the operating system for the
/// locale in use; `None` where the system gave none that can be used. What
/// comes back depends on the machine, so nothing is said of it.
#[verifier::external_body]
fn system_locale() -> (locale: Option<SystemLocale>)
{
    SystemLocale::default().ok()
}

/// Calls `ToFormattedString::to_formatted_string` on a `u32`: the amount
/// written with the digit grouping of `locale`. The text depends on the
/// locale, so nothing is said of it.
#[verifier::external_body]
fn format_amount(amount: u32, locale: &SystemLocale) -> (text: String)
{
    amount.to_formatted_string(locale)
}

/// What stands in the place of a price that is absent.
pub open spec fn absent() -> Seq<char> {
    "N/A"@
}

/// The line for an item: its name, then the high and the low price, each as
/// the text given for it or, where there is none, as [`absent`].
pub open spec fn price_line(name: Seq<char>, high: Option<Seq<char>>, low: Option<Seq<char>>) -> Seq<
    char,
> {
    name + " -> high: "@ + (match high {
        Some(text) => text,
        None => absent(),
    }) + ", low: "@ + (match low {
        Some(text) => text,
        None => absent(),
    })
}

/// The view of a text that may be absent.
pub open spec fn text_of(text: Option<String>) -> Option<Seq<char>> {
    match text {
        Some(text) => Some(text@),
        None => None,
    }
}

/// Writes the line for an item from its name and the texts of its prices.
pub fn render_price(name: &str, high: Option<String>, low: Option<String>) -> (line: String)
    ensures
        line@ == price_line(name@, text_of(high), text_of(low)),
{
    let mut line = String::from_str(name);
    line.append(" -> high: ");
    match &high {
        Some(text) => line.append(text.as_str()),
        None => line.append("N/A"),
    }
    line.append(", low: ");
    match &low {
        Some(text) => line.append(text.as_str()),
        None => line.append("N/A"),
    }
    line
}

/// Whether `line` shows the item called `name` with the prices `price`: it is
/// the item's line, with some text for each price that is there and
/// [`absent`] for each that is not.
pub open spec fn shows(line: Seq<char>, name: Seq<char>, price: PriceResult) -> bool {
    exists|high: Option<Seq<char>>, low: Option<Seq<char>>|
        (high is Some <==> price.high is Some) && (low is Some <==> price.low is Some) && line
            == #[trigger] price_line(name, high, low)
}

/// The line for an item with its prices, the amounts written as `locale`
/// writes numbers.
///
/// A price that is absent shows as `N/A`, never as a number.
pub fn display_price_in(name: &str, price: &PriceResult, locale: &SystemLocale) -> (line: String)
    ensures
        shows(line@, name@, *price),
{
    let high = match price.high {
        Some(amount) => Some(format_amount(amount, locale)),
        None => None,
    };
    let low = match price.low {
        Some(amount) => Some(format_amount(amount, locale)),
        None => None,
    };
    let ghost high_text = text_of(high);
    let ghost low_text = text_of(low);
    let line = render_price(name, high, low);
    assert(line@ == price_line(name@, high_text, low_text));
    line
}

/// The line for an item with its prices, the amounts written as the
/// machine's locale writes numbers; `None` where the machine has no usable
/// locale.
pub fn display_price(name: &str, price: &PriceResult) -> (shown: Option<String>)
    ensures
        shown matches Some(line) ==> shows(line@, name@, *price),
{
    display_price_with(name, price, system_locale())
}

/// The line for an item with its prices under the locale that the machine
/// gave, if it gave one: a line exactly where there is a locale.
pub fn display_price_with(name: &str, price: &PriceResult, locale: Option<SystemLocale>) -> (shown:
    Option<String>)
    ensures
        shown is Some <==> locale is Some,
        shown matches Some(line) ==> shows(line@, name@, *price),
{
    match locale {
        Some(locale) => Some(display_price_in(name, price, &locale)),
        None => None,
    }
}

/// The test of having a price in `prices`.
pub open spec fn priced_in(prices: Map<u32, PriceResult>) -> spec_fn(ItemMapping) -> bool {
    |mapping: ItemMapping| prices.contains_key(mapping.id)
}

/// The items that a report on `query` shows: those that the query names and
/// that have a price, in the order of `mappings`.
pub open spec fn reported(
    query: Seq<char>,
    mappings: Seq<ItemMapping>,
    prices: Map<u32, PriceResult>,
) -> Seq<ItemMapping> {
    matching(query, mappings).filter(priced_in(prices))
}

/// The report on the items that `item` names: one line for each of them
/// that has a price, in the order of `mappings`; `None` where a line is
/// due and the machine has no usable locale.
///
/// The two datasets need not agree: an item without a price is left out.
pub fn report_lines(item: &str, mappings: &[ItemMapping], prices: &PriceResults) -> (report: Option<
    Vec<String>,
>)
    ensures
        report matches Some(lines) ==> {
            &&& lines.len() == reported(item@, mappings@, prices.data@).len()
            &&& forall|i: int|
                0 <= i < lines.len() ==> shows(
                    (#[trigger] lines[i])@,
                    reported(item@, mappings@, prices.data@)[i].name@,
                    prices.data@[reported(item@, mappings@, prices.data@)[i].id],
                )
        },
        reported(item@, mappings@, prices.data@).len() == 0 ==> report is Some,
{
    let found = get_matching_items(item, mappings);
    let ghost test = priced_in(prices.data@);
    let mut lines: Vec<String> = Vec::new();
    let mut i: usize = 0;
    proof {
        reveal(Seq::filter);
        assert(entries(found@).take(0) =~= Seq::empty());
    }
    while i < found.len()
        invariant
            i <= found.len(),
            test == priced_in(prices.data@),
            entries(found@) == matching(item@, mappings@),
            lines.len() == entries(found@).take(i as int).filter(test).len(),
            forall|k: int|
                0 <= k < lines.len() ==> shows(
                    (#[trigger] lines[k])@,
                    entries(found@).take(i as int).filter(test)[k].name@,
                    prices.data@[entries(found@).take(i as int).filter(test)[k].id],
                ),
        decreases found.len() - i,
    {
        let mapping = found[i];
        proof {
            assert(entries(found@).take(i + 1) =~= entries(found@).take(i as int).push(*mapping));
            entries(found@).take(i as int).lemma_filter_push(*mapping, test);
        }
        match prices.get(mapping.id) {
            Some(price) => {
                match display_price(mapping.name.as_str(), price) {
                    Some(line) => lines.push(line),
                    None => {
                        proof {
                            entries(found@).lemma_filter_take_len(test, i + 1);
                        }
                        return None;
                    },
                }
            },
            None => {},
        }
        i += 1;
    }
    assert(entries(found@).take(i as int) =~= entries(found@));
    Some(lines)
}

} // verus!

use vstd::prelude::*;
use vstd::string::*;

use crate::text::{has_piece, lemma_has_middle_piece};


verus! {

/// A token balance counted in the token's smallest unit, with the token's decimals.
#[derive(Clone, Copy, Debug, PartialEq, Eq)]
pub struct ERC20Balance {
    pub decimals: u8,
    pub balance: u128,
}

/// A user's Aave position: balances by token symbol, net value and health factor.
///
/// `net` is the collateral minus the debt in the oracle's base unit (USD times
/// 10^8); `health_factor` is in wad (times 10^18). The balances are listed by
/// symbol as `erc20_balances` gives them, each symbol at most once.
pub struct AavePortfolio {
    pub supply: Vec<(String, ERC20Balance)>,
    pub debt: Vec<(String, ERC20Balance)>,
    pub net: u128,
    pub health_factor: u128,
}

impl AavePortfolio {
    /// Each symbol stands at most once among the supplied and among the borrowed balances.
    pub open spec fn well_formed(&self) -> bool {
        symbols_distinct(self.supply@) && symbols_distinct(self.debt@)
    }
}

/// The symbols of `entries`, in order.
pub open spec fn entry_symbols(entries: Seq<(String, ERC20Balance)>) -> Seq<Seq<char>> {
    entries.map_values(|e: (String, ERC20Balance)| e.0@)
}

/// No symbol stands twice.
pub open spec fn symbols_distinct(entries: Seq<(String, ERC20Balance)>) -> bool {
    forall|i: int, j: int|
        0 <= i < j < entries.len() ==> #[trigger] entries[i].0@ != #[trigger] entries[j].0@
}

/// The balances of `entries` by symbol.
pub open spec fn entries_map(entries: Seq<(String, ERC20Balance)>) -> Map<Seq<char>, ERC20Balance>
    decreases entries.len(),
{
    if entries.len() == 0 {
        Map::empty()
    } else {
        entries_map(entries.drop_last()).insert(entries.last().0@, entries.last().1)
    }
}

/// A symbol has a balance exactly when some entry names it.
pub proof fn lemma_entries_map_domain(entries: Seq<(String, ERC20Balance)>, k: Seq<char>)
    ensures
        entries_map(entries).contains_key(k) <==> exists|j: int| 0 <= j < entries.len() && #[trigger] entries[j].0@ == k,
    decreases entries.len(),
{
    if entries.len() > 0 {
        let init = entries.drop_last();
        lemma_entries_map_domain(init, k);
        if entries_map(entries).contains_key(k) && entries.last().0@ != k {
            let j = choose|j: int| 0 <= j < init.len() && #[trigger] init[j].0@ == k;
            assert(entries[j].0@ == k);
        }
        if exists|j: int| 0 <= j < entries.len() && #[trigger] entries[j].0@ == k {
            let j = choose|j: int| 0 <= j < entries.len() && #[trigger] entries[j].0@ == k;
            if j < entries.len() - 1 {
                assert(init[j].0@ == k);
            }
        }
    }
}

/// Replacing the balance at `j` with one of the same symbol updates that symbol's balance.
pub proof fn lemma_entries_map_update(entries: Seq<(String, ERC20Balance)>, j: int, e: (String, ERC20Balance))
    requires
        symbols_distinct(entries),
        0 <= j < entries.len(),
        entries[j].0@ == e.0@,
    ensures
        symbols_distinct(entries.update(j, e)),
        entries_map(entries.update(j, e)) == entries_map(entries).insert(e.0@, e.1),
    decreases entries.len(),
{
    let updated = entries.update(j, e);
    let init = entries.drop_last();
    assert(symbols_distinct(updated)) by {
        assert forall|a: int, b: int| 0 <= a < b < updated.len() implies #[trigger] updated[a].0@ != #[trigger] updated[b].0@ by {
            assert(entries[a].0@ != entries[b].0@);
        }
    }
    if j == entries.len() - 1 {
        assert(updated.drop_last() =~= init);
        lemma_entries_map_domain(init, e.0@);
        assert(!entries_map(init).contains_key(e.0@)) by {
            if entries_map(init).contains_key(e.0@) {
                let i = choose|i: int| 0 <= i < init.len() && #[trigger] init[i].0@ == e.0@;
                assert(entries[i].0@ != entries[j].0@);
            }
        }
        assert(entries_map(updated) =~= entries_map(entries).insert(e.0@, e.1));
    } else {
        assert(updated.drop_last() =~= init.update(j, e));
        assert(symbols_distinct(init));
        lemma_entries_map_update(init, j, e);
        assert(entries.last().0@ != e.0@);
        assert(entries_map(updated) =~= entries_map(entries).insert(e.0@, e.1));
    }
}

/// The position of the entry for `symbol`, if there is one.
pub fn find_symbol(entries: &Vec<(String, ERC20Balance)>, symbol: &String) -> (r: Option<usize>)
    ensures
        r matches Some(j) ==> j < entries.len() && entries@[j as int].0@ == symbol@
            && forall|i: int| 0 <= i < j ==> #[trigger] entries@[i].0@ != symbol@,
        r is None ==> forall|j: int| 0 <= j < entries.len() ==> #[trigger] entries@[j].0@ != symbol@,
{
    let mut j: usize = 0;
    while j < entries.len()
        invariant
            j <= entries.len(),
            forall|i: int| 0 <= i < j ==> #[trigger] entries@[i].0@ != symbol@,
        decreases entries.len() - j,
    {
        if entries[j].0 == *symbol {
            return Some(j);
        }
        j = j + 1;
    }
    None
}

/// The texts of a portfolio's amounts as the summary writes them, each with two
/// decimals: the supplied and borrowed balances (in the order of the
/// portfolio's entries), the net value in USD and the health factor.
///
/// The summary writes these amounts from floating-point values (`{:.2}` of the
/// balance over `10^decimals`, of the net value over the oracle's base unit and
/// of the health factor over a wad); that formatting is done by the program
/// around this library, which hands the texts in here.
pub struct AmountTexts {
    pub supply: Vec<String>,
    pub debt: Vec<String>,
    pub net: String,
    pub health_factor: String,
}

/// One line item: `  • SYMBOL: AMOUNT`.
pub open spec fn entry_text(symbol: Seq<char>, amount: Seq<char>) -> Seq<char> {
    "  • "@ + symbol + ": "@ + amount
}

/// The line items of `entries`, each with the amount text of the same position,
/// one after the other (with no separator between them).
pub open spec fn entries_text(entries: Seq<(String, ERC20Balance)>, amounts: Seq<String>) -> Seq<char>
    decreases entries.len(),
{
    if entries.len() == 0 {
        Seq::empty()
    } else {
        entries_text(entries.drop_last(), amounts) + entry_text(entries.last().0@, amounts[entries.len() - 1]@)
    }
}

/// A titled section, or nothing when there is nothing to list.
pub open spec fn section_text(title: Seq<char>, entries: Seq<(String, ERC20Balance)>, amounts: Seq<String>) -> Seq<char> {
    if entries.len() == 0 {
        Seq::empty()
    } else {
        title + entries_text(entries, amounts) + "\n"@
    }
}

/// The amount texts have one text for each supplied and each borrowed balance.
pub open spec fn texts_match(p: AavePortfolio, amounts: AmountTexts) -> bool {
    amounts.supply.len() == p.supply.len() && amounts.debt.len() == p.debt.len()
}

/// The telegram summary of a portfolio, with the given amount texts.
pub open spec fn telegram_message_text(p: AavePortfolio, amounts: AmountTexts) -> Seq<char> {
    "📊 *AAVE Portfolio Summary*\n\n"@
        + section_text("💰 *Supplied*\n"@, p.supply@, amounts.supply@)
        + "\n"@
        + section_text("💸 *Borrowed*\n"@, p.debt@, amounts.debt@)
        + "\n"@
        + "📈 *Net Value*: $"@ + amounts.net@ + "\n"@
        + "🛡️ *Health Factor*: "@ + amounts.health_factor@
}

/// Appends the line items of `entries` to `msg`.
pub fn push_entries(msg: &mut String, entries: &Vec<(String, ERC20Balance)>, amounts: &Vec<String>)
    requires
        amounts.len() == entries.len(),
    ensures
        final(msg)@ == old(msg)@ + entries_text(entries@, amounts@),
{
    let ghost start = msg@;
    let mut i: usize = 0;
    while i < entries.len()
        invariant
            i <= entries.len(),
            amounts.len() == entries.len(),
            msg@ == start + entries_text(entries@.take(i as int), amounts@),
        decreases entries.len() - i,
    {
        msg.append("  • ");
        msg.append(entries[i].0.as_str());
        msg.append(": ");
        msg.append(amounts[i].as_str());
        proof {
            assert(entries@.take(i + 1).drop_last() =~= entries@.take(i as int));
            assert(msg@ =~= start + entries_text(entries@.take(i + 1), amounts@));
        }
        i = i + 1;
    }
    proof {
        assert(entries@.take(i as int) =~= entries@);
    }
}

/// Appends a titled section to `msg`, or nothing when `entries` is empty.
pub fn push_section(msg: &mut String, title: &str, entries: &Vec<(String, ERC20Balance)>, amounts: &Vec<String>)
    requires
        amounts.len() == entries.len(),
    ensures
        final(msg)@ == old(msg)@ + section_text(title@, entries@, amounts@),
{
    if entries.len() > 0 {
        msg.append(title);
        push_entries(msg, entries, amounts);
        msg.append("\n");
        proof {
            assert(msg@ =~= old(msg)@ + section_text(title@, entries@, amounts@));
        }
    } else {
        proof {
            assert(msg@ =~= old(msg)@ + section_text(title@, entries@, amounts@));
        }
    }
}

impl AavePortfolio {
    /// The portfolio summary that is sent to the user: a header, the supplied
    /// and the borrowed balances (each section left out when empty), the net
    /// value and the health factor, with the amounts written as `amounts` holds them.
    pub fn to_telegram_message(&self, amounts: &AmountTexts) -> (msg: String)
        requires
            texts_match(*self, *amounts),
        ensures
            msg@ == telegram_message_text(*self, *amounts),
            msg@ == "📊 *AAVE Portfolio Summary*\n\n"@
                + (if self.supply.len() == 0 { Seq::<char>::empty() } else {
                    "💰 *Supplied*\n"@ + entries_text(self.supply@, amounts.supply@) + "\n"@
                })
                + "\n"@
                + (if self.debt.len() == 0 { Seq::<char>::empty() } else {
                    "💸 *Borrowed*\n"@ + entries_text(self.debt@, amounts.debt@) + "\n"@
                })
                + "\n"@
                + "📈 *Net Value*: $"@ + amounts.net@ + "\n"@
                + "🛡️ *Health Factor*: "@ + amounts.health_factor@,
    {
        let mut msg = String::new();
        msg.append("📊 *AAVE Portfolio Summary*\n\n");
        push_section(&mut msg, "💰 *Supplied*\n", &self.supply, &amounts.supply);
        msg.append("\n");
        push_section(&mut msg, "💸 *Borrowed*\n", &self.debt, &amounts.debt);
        msg.append("\n");
        msg.append("📈 *Net Value*: $");
        msg.append(amounts.net.as_str());
        msg.append("\n");
        msg.append("🛡️ *Health Factor*: ");
        msg.append(amounts.health_factor.as_str());
        proof {
            assert(msg@ =~= telegram_message_text(*self, *amounts));
        }
        msg
    }
}

/// The line items are built one entry after another: none for no entries, and
/// for one more entry its line `  • SYMBOL: AMOUNT`, with the amount text of its position.
pub proof fn lemma_entries_text_steps(entries: Seq<(String, ERC20Balance)>, e: (String, ERC20Balance), amounts: Seq<String>)
    ensures
        entries_text(Seq::empty(), amounts) == Seq::<char>::empty(),
        entries_text(entries.push(e), amounts) == entries_text(entries, amounts) + "  • "@ + e.0@ + ": "@
            + amounts[entries.len() as int]@,
{
    assert(entries.push(e).drop_last() =~= entries);
    assert(entries_text(entries.push(e), amounts) =~= entries_text(entries, amounts) + "  • "@ + e.0@ + ": "@
        + amounts[entries.len() as int]@);
}

/// The summary lists the supplied balances under `💰 *Supplied*` and the
/// borrowed ones under `💸 *Borrowed*`, each section there whenever it has
/// entries; it starts with the header and ends with the net value and health
/// factor texts.
pub proof fn lemma_summary_sections(p: AavePortfolio, amounts: AmountTexts)
    ensures
        p.supply.len() > 0 ==> has_piece(
            telegram_message_text(p, amounts),
            "💰 *Supplied*\n"@ + entries_text(p.supply@, amounts.supply@) + "\n"@,
        ),
        p.debt.len() > 0 ==> has_piece(
            telegram_message_text(p, amounts),
            "💸 *Borrowed*\n"@ + entries_text(p.debt@, amounts.debt@) + "\n"@,
        ),
        telegram_message_text(p, amounts).take("📊 *AAVE Portfolio Summary*\n\n"@.len() as int)
            == "📊 *AAVE Portfolio Summary*\n\n"@,
        has_piece(
            telegram_message_text(p, amounts),
            "\n📈 *Net Value*: $"@ + amounts.net@ + "\n🛡️ *Health Factor*: "@ + amounts.health_factor@,
        ),
{
    let head = "📊 *AAVE Portfolio Summary*\n\n"@;
    let sup = section_text("💰 *Supplied*\n"@, p.supply@, amounts.supply@);
    let deb = section_text("💸 *Borrowed*\n"@, p.debt@, amounts.debt@);
    let tail = "📈 *Net Value*: $"@ + amounts.net@ + "\n"@ + "🛡️ *Health Factor*: "@ + amounts.health_factor@;
    let t = telegram_message_text(p, amounts);
    assert(t =~= head + sup + ("\n"@ + deb + "\n"@ + tail));
    if p.supply.len() > 0 {
        lemma_has_middle_piece(head, sup, "\n"@ + deb + "\n"@ + tail);
    }
    assert(t =~= (head + sup + "\n"@) + deb + ("\n"@ + tail));
    if p.debt.len() > 0 {
        lemma_has_middle_piece(head + sup + "\n"@, deb, "\n"@ + tail);
    }
    assert(t.take(head.len() as int) =~= head);
    let last = "\n📈 *Net Value*: $"@ + amounts.net@ + "\n🛡️ *Health Factor*: "@ + amounts.health_factor@;
    assert(t =~= (head + sup + "\n"@ + deb) + last + Seq::<char>::empty()) by {
        reveal_strlit("\n📈 *Net Value*: $");
        reveal_strlit("📈 *Net Value*: $");
        reveal_strlit("\n🛡️ *Health Factor*: ");
        reveal_strlit("🛡️ *Health Factor*: ");
        reveal_strlit("\n");
    }
    lemma_has_middle_piece(head + sup + "\n"@ + deb, last, Seq::<char>::empty());
}

} // verus!

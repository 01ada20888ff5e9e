use vstd::prelude::*;
use vstd::string::*;

use crate::text::{decimal_text, has_piece, lemma_has_middle_piece, push_decimal};

verus! {

/// A user's Aave position with raw token amounts by symbol.
///
/// `net` is in the oracle's base unit (USD times 10^8), `health_factor` in
/// wad (times 10^18).
pub struct AavePortfolio {
    pub supply: Vec<(String, u128)>,
    pub debt: Vec<(String, u128)>,
    pub net: u128,
    pub health_factor: u128,
}

/// One line item: `  • SYMBOL: AMOUNT` with the raw amount.
pub open spec fn amount_entry_text(e: (String, u128)) -> Seq<char> {
    "  • "@ + e.0@ + ": "@ + decimal_text(e.1 as nat)
}

/// The line items one after the other.
pub open spec fn amount_entries_text(entries: Seq<(String, u128)>) -> Seq<char>
    decreases entries.len(),
{
    if entries.len() == 0 {
        Seq::empty()
    } else {
        amount_entries_text(entries.drop_last()) + amount_entry_text(entries.last())
    }
}

/// A titled section, or nothing when there is nothing to list.
pub open spec fn amount_section_text(title: Seq<char>, entries: Seq<(String, u128)>) -> Seq<char> {
    if entries.len() == 0 {
        Seq::empty()
    } else {
        title + amount_entries_text(entries) + "\n"@
    }
}

/// The telegram summary of a portfolio, with the two-decimal texts of its net
/// value and health factor (written from floating-point values outside this
/// library with `{:.2}`). A raw amount is written
/// as its whole number, as `{:.2}` writes an integer.
pub open spec fn telegram_message_text(p: AavePortfolio, net: Seq<char>, health_factor: Seq<char>) -> Seq<char> {
    "📊 *AAVE Portfolio Summary*\n\n"@
        + amount_section_text("💰 *Supplied*\n"@, p.supply@)
        + "\n"@
        + amount_section_text("💸 *Borrowed*\n"@, p.debt@)
        + "\n"@
        + "📈 *Net Value*: $"@ + net + "\n"@
        + "🛡️ *Health Factor*: "@ + health_factor
}

fn push_amount_section(msg: &mut String, title: &str, entries: &Vec<(String, u128)>)
    ensures
        final(msg)@ == old(msg)@ + amount_section_text(title@, entries@),
{
    if entries.len() == 0 {
        proof {
            assert(msg@ =~= old(msg)@ + amount_section_text(title@, entries@));
        }
        return;
    }
    msg.append(title);
    let ghost start = msg@;
    let mut i: usize = 0;
    while i < entries.len()
        invariant
            i <= entries.len(),
            msg@ == start + amount_entries_text(entries@.take(i as int)),
        decreases entries.len() - i,
    {
        let entry = &entries[i];
        msg.append("  • ");
        msg.append(entry.0.as_str());
        msg.append(": ");
        push_decimal(msg, entry.1);
        proof {
            assert(entries@.take(i + 1).drop_last() =~= entries@.take(i as int));
            assert(msg@ =~= start + amount_entries_text(entries@.take(i + 1)));
        }
        i = i + 1;
    }
    msg.append("\n");
    proof {
        assert(entries@.take(i as int) =~= entries@);
        assert(msg@ =~= old(msg)@ + amount_section_text(title@, entries@));
    }
}

impl AavePortfolio {
    /// The portfolio summary that is sent to the user.
    pub fn to_telegram_message(&self, net: &str, health_factor: &str) -> (msg: String)
        ensures
            msg@ == telegram_message_text(*self, net@, health_factor@),
            msg@ == "📊 *AAVE Portfolio Summary*\n\n"@
                + (if self.supply.len() == 0 { Seq::<char>::empty() } else {
                    "💰 *Supplied*\n"@ + amount_entries_text(self.supply@) + "\n"@
                })
                + "\n"@
                + (if self.debt.len() == 0 { Seq::<char>::empty() } else {
                    "💸 *Borrowed*\n"@ + amount_entries_text(self.debt@) + "\n"@
                })
                + "\n"@
                + "📈 *Net Value*: $"@ + net@ + "\n"@
                + "🛡️ *Health Factor*: "@ + health_factor@,
    {
        let mut msg = String::new();
        msg.append("📊 *AAVE Portfolio Summary*\n\n");
        push_amount_section(&mut msg, "💰 *Supplied*\n", &self.supply);
        msg.append("\n");
        push_amount_section(&mut msg, "💸 *Borrowed*\n", &self.debt);
        msg.append("\n");
        msg.append("📈 *Net Value*: $");
        msg.append(net);
        msg.append("\n");
        msg.append("🛡️ *Health Factor*: ");
        msg.append(health_factor);
        proof {
            assert(msg@ =~= telegram_message_text(*self, net@, health_factor@));
        }
        msg
    }
}

/// The line items are built one entry after another: none for no entries, and
/// for one more entry its line `  • SYMBOL: AMOUNT`, the amount as a whole number.
pub proof fn lemma_amount_entries_text_steps(entries: Seq<(String, u128)>, e: (String, u128))
    ensures
        amount_entries_text(Seq::empty()) == Seq::<char>::empty(),
        amount_entries_text(entries.push(e)) == amount_entries_text(entries) + "  • "@ + e.0@ + ": "@ + decimal_text(e.1 as nat),
{
    assert(entries.push(e).drop_last() =~= entries);
    assert(amount_entries_text(entries.push(e)) =~= amount_entries_text(entries) + "  • "@ + e.0@ + ": "@ + decimal_text(e.1 as nat));
}

/// The summary lists the supplied balances under `💰 *Supplied*` and the
/// borrowed ones under `💸 *Borrowed*`, each section there whenever it has
/// entries, and it ends with the net value and health factor texts.
pub proof fn lemma_summary_sections(p: AavePortfolio, net: Seq<char>, health_factor: Seq<char>)
    ensures
        p.supply.len() > 0 ==> has_piece(
            telegram_message_text(p, net, health_factor),
            "💰 *Supplied*\n"@ + amount_entries_text(p.supply@) + "\n"@,
        ),
        p.debt.len() > 0 ==> has_piece(
            telegram_message_text(p, net, health_factor),
            "💸 *Borrowed*\n"@ + amount_entries_text(p.debt@) + "\n"@,
        ),
        telegram_message_text(p, net, health_factor).take("📊 *AAVE Portfolio Summary*\n\n"@.len() as int)
            == "📊 *AAVE Portfolio Summary*\n\n"@,
        has_piece(
            telegram_message_text(p, net, health_factor),
            "\n📈 *Net Value*: $"@ + net + "\n🛡️ *Health Factor*: "@ + health_factor,
        ),
{
    let head = "📊 *AAVE Portfolio Summary*\n\n"@;
    let sup = amount_section_text("💰 *Supplied*\n"@, p.supply@);
    let deb = amount_section_text("💸 *Borrowed*\n"@, p.debt@);
    let tail = "📈 *Net Value*: $"@ + net + "\n"@ + "🛡️ *Health Factor*: "@ + health_factor;
    let t = telegram_message_text(p, net, health_factor);
    assert(t =~= head + sup + ("\n"@ + deb + "\n"@ + tail));
    if p.supply.len() > 0 {
        lemma_has_middle_piece(head, sup, "\n"@ + deb + "\n"@ + tail);
    }
    assert(t =~= (head + sup + "\n"@) + deb + ("\n"@ + tail));
    if p.debt.len() > 0 {
        lemma_has_middle_piece(head + sup + "\n"@, deb, "\n"@ + tail);
    }
    assert(t.take(head.len() as int) =~= head);
    assert(t =~= (head + sup + "\n"@ + deb) + ("\n📈 *Net Value*: $"@ + net + "\n🛡️ *Health Factor*: "@ + health_factor) + Seq::<char>::empty()) by {
        reveal_strlit("\n📈 *Net Value*: $");
        reveal_strlit("📈 *Net Value*: $");
        reveal_strlit("\n🛡️ *Health Factor*: ");
        reveal_strlit("🛡️ *Health Factor*: ");
        reveal_strlit("\n");
    }
    lemma_has_middle_piece(head + sup + "\n"@ + deb, "\n📈 *Net Value*: $"@ + net + "\n🛡️ *Health Factor*: "@ + health_factor, Seq::<char>::empty());
}

} // verus!

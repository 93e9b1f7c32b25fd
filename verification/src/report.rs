//! The audit's printed form, and the audit report: the protocol's state and its audit
//! trail written out as an HTML page.
use vstd::prelude::*;
use vstd::string::*;
use crate::decimal::{decimal_text, decimal_text_2dp, Amount};
use crate::models::Transaction;
use crate::protocol::{AuditReport, RwaProtocol};
use crate::time::{clock_instant, now, utc_text, Timestamp};

verus! {

/// The audit as the protocol prints it: the supply, the tokens the accounts hold and the
/// vault, in grams, then the ledger's and the reserve's status, one line each.
pub open spec fn audit_text(p: RwaProtocol, report: AuditReport) -> Seq<char> {
    "\n--- PROTOCOL AUDIT REPORT ---\nDigital Supply (Ledger):  "@ + decimal_text(p.total_token_supply@)
        + "g\nUser Balances (Sum):      "@ + decimal_text(report.total_gold_in_accounts@)
        + "g\nPhysical Vault (Real):    "@ + decimal_text(p.physical_vault_grams@) + "g\n"@ + (
    if report.ledger_consistent {
        "INTERNAL LEDGER: Consistent.\n"@
    } else {
        "INTERNAL LEDGER: Mismatch detected!\n"@
    }) + (if report.fully_collateralized {
        "RESERVE STATUS: Fully Collateralized.\n"@
    } else {
        "RESERVE STATUS: UNDER-COLLATERALIZED! (Dangerous)\n"@
    })
}

/// The page's head: the document type, the style sheet and the opening of the body.
pub open spec fn report_head() -> Seq<char> {
    "
        <!DOCTYPE html>
        <html>
        <head>
            <style>
                body { font-family: 'Segoe UI', Tahoma, Geneva, Verdana, sans-serif; margin: 40px; background-color: #f4f7f6; }
                h1 { color: #2c3e50; border-bottom: 2px solid #3498db; padding-bottom: 10px; }
                table { width: 100%; border-collapse: collapse; background: white; box-shadow: 0 1px 3px rgba(0,0,0,0.2); }
                th { background-color: #3498db; color: white; padding: 12px; text-align: left; }
                td { padding: 12px; border-bottom: 1px solid #ddd; }
                tr:hover { background-color: #f1f1f1; }
                .price { color: #27ae60; font-weight: bold; }
            </style>
        </head>
        <body>
        "@
}

/// The table's head row.
pub open spec fn report_table_head() -> Seq<char> {
    "<table>
            <tr>
                <th>Timestamp (UTC)</th>
                <th>Account</th>
                <th>Action</th>
                <th>Amount (g)</th>
                <th>Market Price</th>
            </tr>"@
}

/// The row of one transaction: its time of day, account, action, amount in grams and
/// the price at the time.
pub open spec fn report_row(tx: Transaction) -> Seq<char> {
    "\n            <tr>\n                <td>"@ + utc_text(tx.timestamp, "%H:%M:%S"@)
        + "</td>\n                <td>"@ + tx.owner@ + "</td>\n                <td>"@ + tx.action@
        + "</td>\n                <td>"@ + decimal_text(tx.amount@) + "g</td>\n                <td>₹"@
        + decimal_text_2dp(tx.price_at_time@) + "</td>\n            </tr>"@
}

/// The rows of the transactions, in the order they were recorded.
pub open spec fn report_rows(history: Seq<Transaction>) -> Seq<char>
    decreases history.len(),
{
    if history.len() == 0 {
        Seq::empty()
    } else {
        report_rows(history.drop_last()) + report_row(history.last())
    }
}

/// The page for the protocol `p`, dated by the instant `today`.
pub open spec fn report_page(p: RwaProtocol, today: Timestamp) -> Seq<char> {
    report_head() + "<h1>RWA Protocol Audit: "@ + utc_text(today, "%Y-%m-%d"@) + "</h1>"@
        + "<p>Current Gold Price: <span class='price'>₹"@ + decimal_text_2dp(p.gold_price_inr@)
        + "</span></p>"@ + "<p>Total Token Supply: "@ + decimal_text(p.total_token_supply@)
        + "g | Physical Vault: "@ + decimal_text(p.physical_vault_grams@) + "g</p>"@
        + report_table_head() + report_rows(p.history@) + "</table></body></html>"@
}

/// The row of one transaction.
fn render_row(tx: &Transaction) -> (r: String)
    ensures
        r@ == report_row(*tx),
{
    let mut html = String::from_str("\n            <tr>\n                <td>");
    let time = tx.timestamp.format("%H:%M:%S");
    html.append(time.as_str());
    html.append("</td>\n                <td>");
    html.append(tx.owner.as_str());
    html.append("</td>\n                <td>");
    html.append(tx.action.as_str());
    html.append("</td>\n                <td>");
    let amount = tx.amount.to_text();
    html.append(amount.as_str());
    html.append("g</td>\n                <td>₹");
    let at_price = tx.price_at_time.to_text_2dp();
    html.append(at_price.as_str());
    html.append("</td>\n            </tr>");
    html
}

impl RwaProtocol {
    /// The audit report, dated by `today`.
    pub fn render_html_report(&self, today: Timestamp) -> (r: String)
        ensures
            r@ == report_page(*self, today),
    {
        let mut html = String::new();
        html.append("
        <!DOCTYPE html>
        <html>
        <head>
            <style>
                body { font-family: 'Segoe UI', Tahoma, Geneva, Verdana, sans-serif; margin: 40px; background-color: #f4f7f6; }
                h1 { color: #2c3e50; border-bottom: 2px solid #3498db; padding-bottom: 10px; }
                table { width: 100%; border-collapse: collapse; background: white; box-shadow: 0 1px 3px rgba(0,0,0,0.2); }
                th { background-color: #3498db; color: white; padding: 12px; text-align: left; }
                td { padding: 12px; border-bottom: 1px solid #ddd; }
                tr:hover { background-color: #f1f1f1; }
                .price { color: #27ae60; font-weight: bold; }
            </style>
        </head>
        <body>
        ");
        html.append("<h1>RWA Protocol Audit: ");
        let date = today.format("%Y-%m-%d");
        html.append(date.as_str());
        html.append("</h1>");
        html.append("<p>Current Gold Price: <span class='price'>₹");
        let price = self.gold_price_inr.to_text_2dp();
        html.append(price.as_str());
        html.append("</span></p>");
        html.append("<p>Total Token Supply: ");
        let supply = self.total_token_supply.to_text();
        html.append(supply.as_str());
        html.append("g | Physical Vault: ");
        let vault = self.physical_vault_grams.to_text();
        html.append(vault.as_str());
        html.append("g</p>");
        html.append("<table>
            <tr>
                <th>Timestamp (UTC)</th>
                <th>Account</th>
                <th>Action</th>
                <th>Amount (g)</th>
                <th>Market Price</th>
            </tr>");
        let ghost prefix = html@;
        let n = self.history.len();
        let mut i: usize = 0;
        while i < n
            invariant
                n == self.history@.len(),
                i <= n,
                html@ == prefix + report_rows(self.history@.take(i as int)),
            decreases n - i,
        {
            let row = render_row(&self.history[i]);
            html.append(row.as_str());
            proof {
                let h = self.history@;
                assert(h.take(i + 1).drop_last() =~= h.take(i as int));
                assert(h.take(i + 1).last() == h[i as int]);
                assert(prefix + report_rows(h.take(i as int)) + report_row(h[i as int]) =~= prefix
                    + report_rows(h.take(i + 1)));
            }
            i = i + 1;
        }
        proof {
            assert(self.history@.take(n as int) =~= self.history@);
        }
        html.append("</table></body></html>");
        html
    }

    /// The announcement of a purchase of `grams` by `user` at the current price:
    /// `TRADE SUCCESS: <grams>g minted for <user> at ₹<price>`.
    pub fn buy_notice(&self, user: &str, grams: Amount) -> (r: String)
        ensures
            r@ == "TRADE SUCCESS: "@ + decimal_text(grams@) + "g minted for "@ + user@ + " at ₹"@
                + decimal_text(self.gold_price_inr@),
    {
        let mut text = String::from_str("TRADE SUCCESS: ");
        let shown = grams.to_text();
        text.append(shown.as_str());
        text.append("g minted for ");
        text.append(user);
        text.append(" at ₹");
        let price = self.gold_price_inr.to_text();
        text.append(price.as_str());
        text
    }

    /// The announcement of a sale of `grams` by `user` at the current price:
    /// `LIQUIDATION SUCCESS: <grams>g burned for <user> at ₹<price>`.
    pub fn sell_notice(&self, user: &str, grams: Amount) -> (r: String)
        ensures
            r@ == "LIQUIDATION SUCCESS: "@ + decimal_text(grams@) + "g burned for "@ + user@ + " at ₹"@
                + decimal_text(self.gold_price_inr@),
    {
        let mut text = String::from_str("LIQUIDATION SUCCESS: ");
        let shown = grams.to_text();
        text.append(shown.as_str());
        text.append("g burned for ");
        text.append(user);
        text.append(" at ₹");
        let price = self.gold_price_inr.to_text();
        text.append(price.as_str());
        text
    }

    /// The oracle's announcement of the price, with two places:
    /// `\n[ORACLE UPDATE] New Gold Price: $<price>`.
    pub fn oracle_notice(&self) -> (r: String)
        ensures
            r@ == "\n[ORACLE UPDATE] New Gold Price: $"@ + decimal_text_2dp(self.gold_price_inr@),
    {
        let mut text = String::from_str("\n[ORACLE UPDATE] New Gold Price: $");
        let price = self.gold_price_inr.to_text_2dp();
        text.append(price.as_str());
        text
    }

    /// The audit's printed form, for a report of this protocol's audit.
    pub fn audit_summary(&self, report: &AuditReport) -> (r: String)
        ensures
            r@ == audit_text(*self, *report),
    {
        let mut text = String::from_str("\n--- PROTOCOL AUDIT REPORT ---\nDigital Supply (Ledger):  ");
        let supply = self.total_token_supply.to_text();
        text.append(supply.as_str());
        text.append("g\nUser Balances (Sum):      ");
        let held = report.total_gold_in_accounts.to_text();
        text.append(held.as_str());
        text.append("g\nPhysical Vault (Real):    ");
        let vault = self.physical_vault_grams.to_text();
        text.append(vault.as_str());
        text.append("g\n");
        if report.ledger_consistent {
            text.append("INTERNAL LEDGER: Consistent.\n");
        } else {
            text.append("INTERNAL LEDGER: Mismatch detected!\n");
        }
        if report.fully_collateralized {
            text.append("RESERVE STATUS: Fully Collateralized.\n");
        } else {
            text.append("RESERVE STATUS: UNDER-COLLATERALIZED! (Dangerous)\n");
        }
        text
    }

    /// The audit report, dated by an instant read from the clock.
    pub fn generate_html_report(&self) -> (r: String)
        ensures
            exists|today: Timestamp| clock_instant(today) && r@ == report_page(*self, today),
    {
        let today = now();
        let r = self.render_html_report(today);
        assert(clock_instant(today) && r@ == report_page(*self, today));
        r
    }
}

/// The report lists every transaction, in the order recorded: recording one more
/// transaction adds exactly its row to the page, at the end of the table, and changes
/// nothing else of the page.
pub proof fn law_report_gains_one_row_per_transaction(
    p: RwaProtocol,
    q: RwaProtocol,
    tx: Transaction,
    today: Timestamp,
)
    requires
        q.history@ == p.history@.push(tx),
        q.gold_price_inr == p.gold_price_inr,
        q.total_token_supply == p.total_token_supply,
        q.physical_vault_grams == p.physical_vault_grams,
    ensures
        report_page(q, today) == report_page(p, today).take(
            report_page(p, today).len() - "</table></body></html>"@.len(),
        ) + report_row(tx) + "</table></body></html>"@,
{
    assert(q.history@.drop_last() =~= p.history@);
    let tail = "</table></body></html>"@;
    let body = report_head() + "<h1>RWA Protocol Audit: "@ + utc_text(today, "%Y-%m-%d"@) + "</h1>"@
        + "<p>Current Gold Price: <span class='price'>₹"@ + decimal_text_2dp(p.gold_price_inr@)
        + "</span></p>"@ + "<p>Total Token Supply: "@ + decimal_text(p.total_token_supply@)
        + "g | Physical Vault: "@ + decimal_text(p.physical_vault_grams@) + "g</p>"@
        + report_table_head() + report_rows(p.history@);
    assert(report_page(p, today) == body + tail);
    assert((body + tail).take(body.len() as int) =~= body);
    assert(report_page(q, today) =~= body + report_row(tx) + tail);
}

/// A report of a protocol with no transactions has a table with no rows: its head row
/// is followed directly by the end of the page.
pub proof fn law_report_of_no_transactions(p: RwaProtocol, today: Timestamp)
    requires
        p.history@.len() == 0,
    ensures
        report_page(p, today) == report_head() + "<h1>RWA Protocol Audit: "@ + utc_text(
            today,
            "%Y-%m-%d"@,
        ) + "</h1>"@ + "<p>Current Gold Price: <span class='price'>₹"@ + decimal_text_2dp(
            p.gold_price_inr@,
        ) + "</span></p>"@ + "<p>Total Token Supply: "@ + decimal_text(p.total_token_supply@)
            + "g | Physical Vault: "@ + decimal_text(p.physical_vault_grams@) + "g</p>"@
            + report_table_head() + "</table></body></html>"@,
{
    assert(report_rows(p.history@) =~= Seq::<char>::empty());
}

/// The printed audit shows, line by line, the ledger's supply, the tokens the accounts
/// hold by the audit, and the vault, each in grams, then whether the audit found the
/// ledger consistent and the vault covering the supply.
pub proof fn law_audit_summary_shows_each_figure(p: RwaProtocol, report: AuditReport)
    ensures
        audit_text(p, report) == "\n--- PROTOCOL AUDIT REPORT ---\n"@
            + ("Digital Supply (Ledger):  "@ + decimal_text(p.total_token_supply@) + "g\n"@)
            + ("User Balances (Sum):      "@ + decimal_text(report.total_gold_in_accounts@) + "g\n"@)
            + ("Physical Vault (Real):    "@ + decimal_text(p.physical_vault_grams@) + "g\n"@)
            + (if report.ledger_consistent {
            "INTERNAL LEDGER: Consistent.\n"@
        } else {
            "INTERNAL LEDGER: Mismatch detected!\n"@
        }) + (if report.fully_collateralized {
            "RESERVE STATUS: Fully Collateralized.\n"@
        } else {
            "RESERVE STATUS: UNDER-COLLATERALIZED! (Dangerous)\n"@
        }),
{
    reveal_strlit("\n--- PROTOCOL AUDIT REPORT ---\nDigital Supply (Ledger):  ");
    reveal_strlit("\n--- PROTOCOL AUDIT REPORT ---\n");
    reveal_strlit("Digital Supply (Ledger):  ");
    reveal_strlit("g\nUser Balances (Sum):      ");
    reveal_strlit("User Balances (Sum):      ");
    reveal_strlit("g\n");
    reveal_strlit("g\nPhysical Vault (Real):    ");
    reveal_strlit("Physical Vault (Real):    ");
    assert(audit_text(p, report) =~= "\n--- PROTOCOL AUDIT REPORT ---\n"@
        + ("Digital Supply (Ledger):  "@ + decimal_text(p.total_token_supply@) + "g\n"@)
        + ("User Balances (Sum):      "@ + decimal_text(report.total_gold_in_accounts@) + "g\n"@)
        + ("Physical Vault (Real):    "@ + decimal_text(p.physical_vault_grams@) + "g\n"@)
        + (if report.ledger_consistent {
        "INTERNAL LEDGER: Consistent.\n"@
    } else {
        "INTERNAL LEDGER: Mismatch detected!\n"@
    }) + (if report.fully_collateralized {
        "RESERVE STATUS: Fully Collateralized.\n"@
    } else {
        "RESERVE STATUS: UNDER-COLLATERALIZED! (Dangerous)\n"@
    }));
}

/// A transaction's row has five cells, in this order: the time of day of its stamp
/// (`HH:MM:SS`, UTC), the account, the action, the amount in grams, and the price at the
/// time in rupees with two places.
pub proof fn law_report_row_cells(tx: Transaction)
    ensures
        report_row(tx) == "\n            <tr>"@ + ("\n                <td>"@ + utc_text(tx.timestamp, "%H:%M:%S"@)
            + "</td>"@) + ("\n                <td>"@ + tx.owner@ + "</td>"@) + ("\n                <td>"@
            + tx.action@ + "</td>"@) + ("\n                <td>"@ + decimal_text(tx.amount@) + "g</td>"@)
            + ("\n                <td>₹"@ + decimal_text_2dp(tx.price_at_time@) + "</td>"@)
            + "\n            </tr>"@,
{
    reveal_strlit("\n            <tr>\n                <td>");
    reveal_strlit("\n            <tr>");
    reveal_strlit("\n                <td>");
    reveal_strlit("</td>\n                <td>");
    reveal_strlit("</td>");
    reveal_strlit("g</td>\n                <td>₹");
    reveal_strlit("g</td>");
    reveal_strlit("\n                <td>₹");
    reveal_strlit("</td>\n            </tr>");
    reveal_strlit("\n            </tr>");
    assert(report_row(tx) =~= "\n            <tr>"@ + ("\n                <td>"@ + utc_text(tx.timestamp, "%H:%M:%S"@)
        + "</td>"@) + ("\n                <td>"@ + tx.owner@ + "</td>"@) + ("\n                <td>"@
        + tx.action@ + "</td>"@) + ("\n                <td>"@ + decimal_text(tx.amount@) + "g</td>"@)
        + ("\n                <td>₹"@ + decimal_text_2dp(tx.price_at_time@) + "</td>"@)
        + "\n            </tr>"@);
}

} // verus!

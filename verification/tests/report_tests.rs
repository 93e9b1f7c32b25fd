use rwa_gold_protocol::decimal::Amount;
use rwa_gold_protocol::models::UserRole;
use rwa_gold_protocol::protocol::RwaProtocol;
use rwa_gold_protocol::time::Timestamp;

const HEAD: &str = "
        <!DOCTYPE html>
        <html>
        <head>
            <style>
                body { font-family: 'Segoe UI', Tahoma, Geneva, Verdana, sans-serif; margin: 40px; background-color: #f4f7f6; }
                h1 { color: #2c3e50; border-bottom: 2px solid #3498db; padding-bottom: 10px; }
                table { width: 100%; border-collapse: collapse; background: white; box-shadow: 0 1px 3px rgba(0,0,0,0.2); }
                th { background-color: #3498db; color: white; padding: 12px; text-align: left; }
                td { padding: 12px; border-bottom: 1px solid #ddd; }
                tr:hover { background-color: #f1f1f1; }
                .price { color: #27ae60; font-weight: bold; }
            </style>
        </head>
        <body>
        ";

#[test]
fn report_of_empty_protocol() {
    let p = RwaProtocol::new();
    let today = Timestamp { secs: 1_700_000_000, nanos: 0 };
    let mut expected = String::from(HEAD);
    expected.push_str("<h1>RWA Protocol Audit: 2023-11-14</h1>");
    expected.push_str("<p>Current Gold Price: <span class='price'>₹6256.00</span></p>");
    expected.push_str("<p>Total Token Supply: 0.0g | Physical Vault: 1000.00g</p>");
    expected.push_str("<table>\n            <tr>\n                <th>Timestamp (UTC)</th>\n                <th>Account</th>\n                <th>Action</th>\n                <th>Amount (g)</th>\n                <th>Market Price</th>\n            </tr>");
    expected.push_str("</table></body></html>");
    assert_eq!(p.render_html_report(today), expected);
}

#[test]
fn report_lists_transactions() {
    let mut p = RwaProtocol::new();
    p.bank.add_account("root", Amount::new(5, 2), UserRole::Admin);
    assert_eq!(p.admin_add_inventory("root", Amount::new(25, 1)), Ok(()));
    p.history[0].timestamp = Timestamp { secs: 1_700_000_000, nanos: 5 };
    let today = Timestamp { secs: 1_700_000_000, nanos: 0 };
    let html = p.render_html_report(today);
    let row = "\n            <tr>\n                <td>22:13:20</td>\n                <td>root</td>\n                <td>VAULT_REPLENISH</td>\n                <td>2.5g</td>\n                <td>₹6256.00</td>\n            </tr>";
    assert!(html.contains(row));
    assert!(html.contains("Physical Vault: 1002.50g"));
    assert!(html.ends_with(&format!("{}</table></body></html>", row)));
}

#[test]
fn generated_report_is_dated() {
    let p = RwaProtocol::new();
    let html = p.generate_html_report();
    assert!(html.starts_with(HEAD));
    assert!(html.contains("<h1>RWA Protocol Audit: 20"));
}

#[test]
fn audit_summary_lines() {
    let mut p = RwaProtocol::new();
    p.bank.add_account("alice", Amount::new(5, 2), UserRole::Customer);
    let k = p.bank.find("alice").unwrap();
    p.bank.accounts[k].1.deposit(Amount::new(20000, 0));
    assert_eq!(p.buy_tokens("alice", Amount::new(2, 0)), Ok(()));
    let report = p.perform_audit();
    assert_eq!(
        p.audit_summary(&report),
        "\n--- PROTOCOL AUDIT REPORT ---\nDigital Supply (Ledger):  2g\nUser Balances (Sum):      2g\nPhysical Vault (Real):    1000.00g\nINTERNAL LEDGER: Consistent.\nRESERVE STATUS: Fully Collateralized.\n"
    );
    p.total_token_supply = Amount::new(2000, 0);
    let report = p.perform_audit();
    let text = p.audit_summary(&report);
    assert!(text.ends_with("INTERNAL LEDGER: Mismatch detected!\nRESERVE STATUS: UNDER-COLLATERALIZED! (Dangerous)\n"));
}

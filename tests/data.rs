use vinco_store::catalog::app_registry;
use vinco_store::db::{Constraint, Database, Entity, StoreError};
use vinco_store::greeting::greet;
use vinco_store::migration::Store;
use vinco_store::model::{NewClient, NewLetter, NewTrade};

fn basic(id: &str) -> NewClient {
    NewClient::required(
        id.to_string(),
        "Ada".to_string(),
        "Lovelace".to_string(),
        "ACC-1".to_string(),
        "ISA".to_string(),
    )
}

fn trade_for(client: &str) -> NewTrade {
    NewTrade {
        client_id: client.to_string(),
        asset_name: "ACME".to_string(),
        account_type: None,
        asset_type: None,
        asset_risk: None,
        side: None,
        quantity: Some("10".to_string()),
        time_of_trade: None,
        date_of_trade: None,
        reason_1: Some("rebalance".to_string()),
        reason_2: None,
        reason_3: None,
    }
}

#[test]
fn required_fields_only_client_reads_back_defaults() {
    let mut s = Store::new();
    s.migrate(&app_registry()).unwrap();
    assert_eq!(s.version, 5);
    let mut db = Database::new();
    assert_eq!(db.insert_client(basic("c1"), "2024-01-01".to_string()), Ok(()));
    let c = db.get_client(&"c1".to_string()).unwrap();
    assert_eq!(c.knowledge_experience, "Medium");
    assert_eq!(c.loss_pct, 0);
    assert_eq!(c.objective, "Balance");
    assert_eq!(c.risk, "Medium");
    assert_eq!(c.annual_review_date, "N/A");
    assert_eq!(c.fees_commission_rate, "N/A");
    assert_eq!(c.investment_manager, None);
    assert_eq!(c.power_of_attorney, None);
    assert_eq!(c.type_account, "ISA");
    assert_eq!(db.clients[0].created_at, "2024-01-01");
    assert_eq!(db.clients[0].updated_at, "2024-01-01");
}

#[test]
fn given_enumerated_value_is_kept() {
    let mut db = Database::new();
    let mut n = basic("c1");
    n.risk = Some("High".to_string());
    n.loss_pct = Some(15);
    db.insert_client(n, "t".to_string()).unwrap();
    let c = db.get_client(&"c1".to_string()).unwrap();
    assert_eq!(c.risk, "High");
    assert_eq!(c.loss_pct, 15);
    assert_eq!(c.objective, "Balance");
}

#[test]
fn duplicate_client_id_fails_and_keeps_prior_record() {
    let mut db = Database::new();
    db.insert_client(basic("c1"), "t1".to_string()).unwrap();
    let mut other = basic("c1");
    other.first_name = "Grace".to_string();
    let r = db.insert_client(other, "t2".to_string());
    assert_eq!(
        r,
        Err(StoreError::IntegrityViolation { entity: Entity::Clients, constraint: Constraint::PrimaryKey })
    );
    assert_eq!(db.client_count(), 1);
    let c = db.get_client(&"c1".to_string()).unwrap();
    assert_eq!(c.first_name, "Ada");
    assert_eq!(db.clients[0].created_at, "t1");
}

#[test]
fn trade_for_unknown_client_fails_and_count_unchanged() {
    let mut db = Database::new();
    db.insert_client(basic("c1"), "t".to_string()).unwrap();
    db.insert_trade(trade_for("c1"), "t".to_string()).unwrap();
    assert_eq!(db.trade_count(), 1);
    let r = db.insert_trade(trade_for("ghost"), "t".to_string());
    assert_eq!(
        r,
        Err(StoreError::IntegrityViolation { entity: Entity::Trades, constraint: Constraint::ForeignKey })
    );
    assert_eq!(db.trade_count(), 1);
    assert_eq!(db.next_trade_id, 2);
}

#[test]
fn trade_gets_next_id_and_defaults() {
    let mut db = Database::new();
    db.insert_client(basic("c1"), "t".to_string()).unwrap();
    assert_eq!(db.insert_trade(trade_for("c1"), "t1".to_string()), Ok(1));
    let mut t = trade_for("c1");
    t.side = Some("Sell".to_string());
    assert_eq!(db.insert_trade(t, "t2".to_string()), Ok(2));
    let first = &db.trades[0];
    assert_eq!(first.account_type, "ISA");
    assert_eq!(first.asset_type, "Equity");
    assert_eq!(first.asset_risk, "Medium");
    assert_eq!(first.side, "Buy");
    assert_eq!(first.quantity.as_deref(), Some("10"));
    assert_eq!(first.reason_1.as_deref(), Some("rebalance"));
    assert_eq!(first.created_at, "t1");
    assert_eq!(db.trades[1].side, "Sell");
}

#[test]
fn trade_ids_exhausted_is_refused() {
    let mut db = Database::new();
    db.insert_client(basic("c1"), "t".to_string()).unwrap();
    db.next_trade_id = u64::MAX;
    let r = db.insert_trade(trade_for("c1"), "t".to_string());
    assert_eq!(r, Err(StoreError::IdsExhausted { entity: Entity::Trades }));
    assert_eq!(db.trade_count(), 0);
}

#[test]
fn letter_defaults_to_draft_and_needs_client() {
    let mut db = Database::new();
    let n = NewLetter { client_id: "c1".to_string(), content: None, pdf_path: None, status: None };
    assert_eq!(
        db.insert_letter(n, "t".to_string()),
        Err(StoreError::IntegrityViolation {
            entity: Entity::SuitabilityLetters,
            constraint: Constraint::ForeignKey
        })
    );
    assert_eq!(db.letter_count(), 0);
    db.insert_client(basic("c1"), "t".to_string()).unwrap();
    let n = NewLetter {
        client_id: "c1".to_string(),
        content: Some("text".to_string()),
        pdf_path: None,
        status: None,
    };
    assert_eq!(db.insert_letter(n, "t3".to_string()), Ok(1));
    assert_eq!(db.letters[0].status, "draft");
    assert_eq!(db.letters[0].content.as_deref(), Some("text"));
    assert_eq!(db.letters[0].updated_at, "t3");
}

#[test]
fn letter_ids_exhausted_is_refused() {
    let mut db = Database::new();
    db.insert_client(basic("c1"), "t".to_string()).unwrap();
    db.next_letter_id = u64::MAX;
    let n = NewLetter { client_id: "c1".to_string(), content: None, pdf_path: None, status: None };
    assert_eq!(
        db.insert_letter(n, "t".to_string()),
        Err(StoreError::IdsExhausted { entity: Entity::SuitabilityLetters })
    );
}

#[test]
fn update_client_touches_updated_at_only() {
    let mut db = Database::new();
    db.insert_client(basic("c1"), "t1".to_string()).unwrap();
    let mut c = db.get_client(&"c1".to_string()).unwrap().copy();
    c.email = Some("ada@example.com".to_string());
    assert_eq!(db.update_client(c, "t2".to_string()), Ok(()));
    assert_eq!(db.clients[0].client.email.as_deref(), Some("ada@example.com"));
    assert_eq!(db.clients[0].created_at, "t1");
    assert_eq!(db.clients[0].updated_at, "t2");
}

#[test]
fn update_unknown_client_is_not_found() {
    let mut db = Database::new();
    db.insert_client(basic("c1"), "t1".to_string()).unwrap();
    let mut c = db.get_client(&"c1".to_string()).unwrap().copy();
    c.id = "c9".to_string();
    assert_eq!(db.update_client(c, "t2".to_string()), Err(StoreError::NotFound { entity: Entity::Clients }));
    assert_eq!(db.clients[0].updated_at, "t1");
}

#[test]
fn missing_client_lookup_is_absent() {
    let db = Database::new();
    assert!(db.get_client(&"nobody".to_string()).is_none());
}

#[test]
fn listing_reports_true_total_for_any_window() {
    let mut db = Database::new();
    for i in 0..5 {
        db.insert_client(basic(&format!("c{}", i)), "t".to_string()).unwrap();
    }
    let page = db.list_clients(1, 2);
    assert_eq!(page.total, 5);
    let ids: Vec<&str> = page.items.iter().map(|c| c.id.as_str()).collect();
    assert_eq!(ids, vec!["c1", "c2"]);
    let page = db.list_clients(4, 10);
    assert_eq!(page.total, 5);
    assert_eq!(page.items.len(), 1);
    let page = db.list_clients(9, 3);
    assert_eq!(page.total, 5);
    assert!(page.items.is_empty());
    let page = db.list_clients(0, 0);
    assert_eq!(page.total, 5);
    assert!(page.items.is_empty());
}

#[test]
fn greet_formats_welcome() {
    assert_eq!(greet("Sam"), "Hello, Sam! Welcome to Vinco Wealth.");
}

#[test]
fn data_layer_opens_only_on_latest_store() {
    let reg = app_registry();
    let mut s = Store::new();
    assert!(Database::for_store(&s, &reg).is_none());
    s.migrate(&reg).unwrap();
    let db = Database::for_store(&s, &reg).expect("ready store");
    assert_eq!(db.client_count(), 0);
    assert_eq!(db.next_trade_id, 1);
}

#[test]
fn trades_and_letters_are_found_by_id_and_client() {
    let mut db = Database::new();
    db.insert_client(basic("c1"), "t".to_string()).unwrap();
    db.insert_client(basic("c2"), "t".to_string()).unwrap();
    assert_eq!(db.insert_trade(trade_for("c1"), "t".to_string()), Ok(1));
    assert_eq!(db.insert_trade(trade_for("c2"), "t".to_string()), Ok(2));
    assert_eq!(db.insert_trade(trade_for("c1"), "t".to_string()), Ok(3));
    assert_eq!(db.trades_of_client(&"c1".to_string()), vec![1, 3]);
    assert_eq!(db.trades_of_client(&"c2".to_string()), vec![2]);
    assert!(db.trades_of_client(&"c9".to_string()).is_empty());
    assert_eq!(db.get_trade(2).unwrap().client_id, "c2");
    assert!(db.get_trade(7).is_none());
    let n = NewLetter { client_id: "c2".to_string(), content: None, pdf_path: None, status: None };
    assert_eq!(db.insert_letter(n, "t".to_string()), Ok(1));
    assert_eq!(db.get_letter(1).unwrap().client_id, "c2");
    assert!(db.get_letter(2).is_none());
}

#[test]
fn app_registry_scenario_end_to_end() {
    let reg = app_registry();
    let mut s = Store::new();
    assert_eq!(s.migrate(&reg).unwrap(), vec![1, 2, 3, 4, 5]);
    let mut db = Database::for_store(&s, &reg).unwrap();
    let n = NewClient::required(
        "c1".to_string(),
        "Ann".to_string(),
        "Lee".to_string(),
        "A-1".to_string(),
        "ISA".to_string(),
    );
    assert_eq!(db.insert_client(n, "t".to_string()), Ok(()));
    let c = db.get_client(&"c1".to_string()).unwrap();
    assert_eq!(c.risk, "Medium");
    assert_eq!(c.objective, "Balance");
    assert_eq!(c.loss_pct, 0);
    assert_eq!(c.annual_review_date, "N/A");
    assert_eq!(c.fees_commission_rate, "N/A");
    assert_eq!(greet("World"), "Hello, World! Welcome to Vinco Wealth.");
}

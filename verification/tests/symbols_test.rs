use halcon::symbols::{Table, TableAdmin, TsOption, TsStep};

fn reply(step: TsStep) -> Result<i32, String> {
    match step {
        TsStep::Reply(answer) => answer,
        other => panic!("expected an answer, got {:?}", other),
    }
}

#[test]
fn add_symbol_test() {
    let mut ts = Table::new(0);

    ts.add_symbol("num".to_string());

    let res = ts.search_for_name("num".to_string());
    assert_eq!(res, 0);
}

#[test]
fn search_for_name_test() {
    let mut ts = Table::new(0);

    ts.add_symbol("num".to_string());
    ts.add_symbol("a".to_string());
    ts.add_symbol("b".to_string());

    let res = ts.search_for_name("num".to_string());
    assert_eq!(res, 0);
    let res = ts.search_for_name("a".to_string());
    assert_eq!(res, 1);
    let res = ts.search_for_name("b".to_string());
    assert_eq!(res, 2);

    let res = ts.search_for_name("c".to_string());
    assert_eq!(res, -1);
}

#[test]
fn handle_symbol_global_test() {
    let mut ts = TableAdmin::new();

    let err_table = reply(ts.external_interface(TsOption::Handle("num".to_string())));
    assert_eq!(err_table, Err("No tables created".to_string()));

    assert!(matches!(ts.external_interface(TsOption::Create), TsStep::Continue));

    assert!(matches!(ts.external_interface(TsOption::StartDeclaring), TsStep::Continue));

    let pos_num = reply(ts.external_interface(TsOption::Handle("num".to_string())));
    assert_eq!(pos_num, Ok(0));

    let err_dup = reply(ts.external_interface(TsOption::Handle("num".to_string())));
    assert_eq!(err_dup, Err("can't declare a variable twice".to_string()));

    assert!(matches!(ts.external_interface(TsOption::StopDeclaring), TsStep::Continue));

    let err_not_decl = reply(ts.external_interface(TsOption::Handle("a".to_string())));
    assert_eq!(err_not_decl, Err("can't find the variable".to_string()));

    let pos_num_2 = reply(ts.external_interface(TsOption::Handle("num".to_string())));
    assert_eq!(pos_num, pos_num_2);

    assert!(matches!(ts.external_interface(TsOption::End), TsStep::Stop));
}

#[test]
fn handle_symbol_local_test() {
    let mut ts = TableAdmin::new();

    ts.external_interface(TsOption::Create);

    ts.external_interface(TsOption::StartDeclaring);

    let pos_num = reply(ts.external_interface(TsOption::Handle("num_global".to_string())));
    assert_eq!(pos_num, Ok(0));

    ts.external_interface(TsOption::Create);

    let pos_num = reply(ts.external_interface(TsOption::Handle("num_local".to_string())));
    assert_eq!(pos_num, Ok(0));

    ts.external_interface(TsOption::StopDeclaring);
    let pos_num = reply(ts.external_interface(TsOption::Handle("num_global".to_string())));
    assert_eq!(pos_num, Ok(0));

    ts.external_interface(TsOption::StartDeclaring);
    let pos_num = reply(ts.external_interface(TsOption::Handle("num_global".to_string())));
    assert_eq!(pos_num, Ok(1));

    assert!(matches!(ts.external_interface(TsOption::End), TsStep::Stop));
}

#[test]
fn test_destroy_table_closes_the_innermost_scope() {
    let mut ts = TableAdmin::new();
    ts.destroy_table();
    ts.create_table();
    ts.external_interface(TsOption::StartDeclaring);
    assert_eq!(ts.handle_symbol("a".to_string()), Ok(0));
    ts.create_table();
    assert_eq!(ts.handle_symbol("b".to_string()), Ok(0));
    assert_eq!(ts.handle_symbol("c".to_string()), Ok(1));
    ts.external_interface(TsOption::StopDeclaring);
    assert_eq!(ts.handle_symbol("c".to_string()), Ok(1));
    ts.external_interface(TsOption::Destroy);
    assert_eq!(ts.handle_symbol("c".to_string()), Err("can't find the variable".to_string()));
    assert_eq!(ts.handle_symbol("a".to_string()), Ok(0));
    assert!(ts.room_left());
    ts.destroy_table();
    assert_eq!(ts.handle_symbol("a".to_string()), Err("No tables created".to_string()));
}

#[test]
fn test_table_keeps_its_number() {
    let mut table = Table::new(3);
    assert_eq!(table.identifier(), 3);
    assert_eq!(table.disp, 0);
    table.add_symbol("x".to_string());
    assert_eq!(table.identifier(), 3);
    assert_eq!(Table::new(-7).identifier(), -7);
}

#[test]
fn test_table_room() {
    let mut table = Table::new(3);
    assert!(table.room_left());
    assert_eq!(table.add_symbol("x".to_string()), 0);
    assert_eq!(table.add_symbol("x".to_string()), 1);
    assert_eq!(table.search_for_name("x".to_string()), 0);
    assert_eq!(table.disp, 0);
}

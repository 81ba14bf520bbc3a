use trace_server::sql_builder::{Insert, Select, SqlValue};

#[test]
fn renders_columns_and_values_from_the_same_calls() {
    let sql = Insert::into("airlines")
        .set("iata_code", "AA")
        .set("icao_code", "AAL")
        .set("name", "American Airlines")
        .to_sql();

    assert_eq!(
        sql,
        "INSERT INTO airlines (iata_code, icao_code, name)\n\
         VALUES ($1, $2, $3)"
    );
}

/// The property the builder exists for: the n-th column and the n-th argument
/// are written by one call, so they cannot be given different positions.
#[test]
fn keeps_columns_and_placeholders_aligned_across_a_wide_insert() {
    let mut insert = Insert::into("flights");
    for column in ["a", "b", "c", "d", "e", "f", "g", "h"] {
        insert = insert.set(column, column);
    }

    assert_eq!(
        insert.to_sql(),
        "INSERT INTO flights (a, b, c, d, e, f, g, h)\n\
         VALUES ($1, $2, $3, $4, $5, $6, $7, $8)"
    );
}

#[test]
fn casts_a_value_without_disturbing_the_placeholder_numbering() {
    let sql = Insert::into("places")
        .set("name", "Home")
        .set_cast("latitude", SqlValue::Float8(Some(37.7749_f64.to_bits())), "float8::numeric")
        .set_cast("longitude", SqlValue::Float8(Some((-122.4194_f64).to_bits())), "float8::numeric")
        .set("timezone", "America/Los_Angeles")
        .to_sql();

    assert_eq!(
        sql,
        "INSERT INTO places (name, latitude, longitude, timezone)\n\
         VALUES ($1, $2::float8::numeric, $3::float8::numeric, $4)"
    );
}

#[test]
fn renders_on_conflict_do_nothing() {
    let sql = Insert::into("airports")
        .set("iata_code", "SFO")
        .on_conflict_do_nothing(&["iata_code"])
        .returning(&["id"])
        .to_sql();

    assert_eq!(
        sql,
        "INSERT INTO airports (iata_code)\n\
         VALUES ($1)\n\
         ON CONFLICT (iata_code) DO NOTHING\n\
         RETURNING id"
    );
}

#[test]
fn renders_a_composite_conflict_target() {
    let sql = Insert::into("flights")
        .set("airline_id", 1_i64)
        .set("flight_number", "100")
        .on_conflict_do_nothing(&["airline_id", "flight_number", "scheduled_departure_at"])
        .to_sql();

    assert!(
        sql.ends_with("ON CONFLICT (airline_id, flight_number, scheduled_departure_at) DO NOTHING"),
        "{sql}"
    );
}

/// A partial unique index only matches a conflict target that repeats its
/// predicate, so the builder has to render it.
#[test]
fn renders_the_predicate_of_a_partial_unique_index() {
    let sql = Insert::into("journeys")
        .set("user_id", 1_i64)
        .set("idempotency_key", "abc")
        .on_conflict_do_nothing_where(
            &["user_id", "idempotency_key"],
            "idempotency_key IS NOT NULL",
        )
        .returning(&["id"])
        .to_sql();

    assert_eq!(
        sql,
        "INSERT INTO journeys (user_id, idempotency_key)\n\
         VALUES ($1, $2)\n\
         ON CONFLICT (user_id, idempotency_key) WHERE idempotency_key IS NOT NULL DO NOTHING\n\
         RETURNING id"
    );
}

#[test]
fn returns_the_same_column_list_a_select_would_read() {
    const COLUMNS: &[&str] = &["id", "airline_id", "flight_number"];

    let sql = Insert::into("flights").set("airline_id", 1_i64).to_sql();
    assert!(!sql.contains("RETURNING"), "{sql}");

    let sql = Insert::into("flights")
        .set("airline_id", 1_i64)
        .returning(COLUMNS)
        .to_sql();
    assert!(
        sql.ends_with("RETURNING id, airline_id, flight_number"),
        "{sql}"
    );
}

#[test]
fn renders_a_lookup_by_column() {
    let sql = Select::from("airlines")
        .columns(&["id"])
        .where_eq("iata_code", "AA")
        .to_sql();

    assert_eq!(
        sql,
        "SELECT id\n\
         FROM airlines\n\
         WHERE iata_code = $1"
    );
}

#[test]
fn ands_conditions_in_the_order_they_were_written() {
    let sql = Select::from("vehicles")
        .columns(&["id"])
        .where_eq("id", 7_i64)
        .where_eq("user_id", "a-user")
        .to_sql();

    assert_eq!(
        sql,
        "SELECT id\n\
         FROM vehicles\n\
         WHERE id = $1 AND user_id = $2"
    );
}

#[test]
fn numbers_placeholders_from_one_in_bind_order() {
    let sql = Select::from("t")
        .columns(&["id"])
        .where_eq("a", 1_i32)
        .where_eq("b", 2_i32)
        .where_eq("c", 3_i32)
        .to_sql();

    assert!(sql.ends_with("WHERE a = $1 AND b = $2 AND c = $3"), "{sql}");
}

#[test]
fn renders_a_join_before_the_conditions_whatever_order_it_was_called_in() {
    let sql = Select::from("places p")
        .where_any_of("p.id", &[1_i64, 2][..])
        .columns(&["p.id", "a.iata_code"])
        .left_join("airports a", "a.id = p.airport_id")
        .to_sql();

    assert_eq!(
        sql,
        "SELECT p.id, a.iata_code\n\
         FROM places p\n\
         LEFT JOIN airports a ON a.id = p.airport_id\n\
         WHERE p.id = ANY($1)"
    );
}

#[test]
fn renders_an_inner_join() {
    let sql = Select::from("journey_flights jf")
        .columns(&["jf.flight_id"])
        .join("flights f", "f.id = jf.flight_id")
        .to_sql();

    assert_eq!(
        sql,
        "SELECT jf.flight_id\n\
         FROM journey_flights jf\n\
         JOIN flights f ON f.id = jf.flight_id"
    );
}

#[test]
fn appends_repeated_column_lists_so_a_constant_can_be_extended() {
    const STORED: &[&str] = &["id", "name"];

    let sql = Select::from("t")
        .columns(STORED)
        .columns(&["created_at"])
        .to_sql();

    assert!(sql.starts_with("SELECT id, name, created_at\n"), "{sql}");
}

#[test]
fn renders_order_by_last() {
    let sql = Select::from("journey_legs")
        .columns(&["id", "position"])
        .where_eq("journey_id", 1_i64)
        .order_by("position")
        .to_sql();

    assert_eq!(
        sql,
        "SELECT id, position\n\
         FROM journey_legs\n\
         WHERE journey_id = $1\n\
         ORDER BY position"
    );
}

#[test]
fn omits_the_where_clause_when_there_are_no_conditions() {
    let sql = Select::from("airlines").columns(&["id"]).to_sql();

    assert_eq!(sql, "SELECT id\nFROM airlines");
}

#[test]
fn binds_arguments_in_the_order_the_placeholders_name_them() {
    let query = Select::from("vehicles")
        .columns(&["id"])
        .where_eq("id", 7_i64)
        .where_eq("nickname", "Blue")
        .into_query();
    let (sql, arguments) = query.into_parts();

    assert_eq!(sql, "SELECT id\nFROM vehicles\nWHERE id = $1 AND nickname = $2");
    assert_eq!(arguments.len(), 2);
    assert!(matches!(arguments[0], SqlValue::BigInt(Some(7))));
    assert!(matches!(&arguments[1], SqlValue::Text(Some(text)) if text == "Blue"));
}

#[test]
fn an_insert_query_carries_every_set_value() {
    let query = Insert::into("airlines")
        .set("iata_code", "AA")
        .set("icao_code", &None::<String>)
        .returning(&["id"])
        .into_query();
    let (sql, arguments) = query.into_parts();

    assert_eq!(sql, "INSERT INTO airlines (iata_code, icao_code)\nVALUES ($1, $2)\nRETURNING id");
    assert_eq!(arguments.len(), 2);
    assert!(matches!(&arguments[0], SqlValue::Text(Some(text)) if text == "AA"));
    assert!(matches!(arguments[1], SqlValue::Text(None)));
}

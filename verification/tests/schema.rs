use content_planner::schema::{migrations, MigrationKind, DATABASE_URL};

#[test]
fn three_migrations_in_version_order() {
    let steps = migrations();
    let versions: Vec<i64> = steps.iter().map(|m| m.version).collect();
    assert_eq!(versions, vec![3, 4, 5]);
}

#[test]
fn every_migration_goes_forward() {
    for step in migrations() {
        assert_eq!(step.kind, MigrationKind::Up);
    }
}

#[test]
fn migrations_are_described() {
    let steps = migrations();
    assert_eq!(steps[0].description, "initialize the database tables");
    assert_eq!(steps[1].description, "initialize the settings table");
    assert_eq!(steps[2].description, "update the settings table");
}

#[test]
fn first_migration_creates_the_tables() {
    let sql = migrations()[0].sql;
    for table in ["videos", "subtasks", "tags", "idea_bank", "idea_tags", "settings"] {
        assert!(sql.contains(&format!("DROP TABLE IF EXISTS {};", table)));
        assert!(sql.contains(&format!("CREATE TABLE {} (", table)));
    }
    assert!(sql.starts_with("\nDROP TABLE IF EXISTS videos;\n"));
    assert!(sql.ends_with("CREATE TABLE settings (\n    key TEXT PRIMARY KEY,\n    value TEXT\n);\n"));
}

#[test]
fn second_migration_renews_the_settings() {
    assert_eq!(
        migrations()[1].sql,
        "\nDROP TABLE IF EXISTS settings;\n\nCREATE TABLE settings (\n    id TEXT PRIMARY KEY,\n    category TEXT NOT NULL,\n    title TEXT NOT NULL,\n    value TEXT UNIQUE NOT NULL,\n    created_at TIMESTAMP WITH TIME ZONE DEFAULT CURRENT_TIMESTAMP\n);\n"
    );
}

#[test]
fn third_migration_drops_the_title() {
    assert_eq!(migrations()[2].sql, "\nALTER TABLE settings DROP COLUMN title;\n");
}

#[test]
fn database_is_named() {
    assert_eq!(DATABASE_URL, "sqlite:content-planner.db");
}

//! The schema of the local database: the migrations that bring it to its
//! current version, in the order in which they are applied.

use vstd::prelude::*;

verus! {

/// The direction of a migration.
#[derive(Clone, Copy, Debug, PartialEq, Eq, Structural)]
pub enum MigrationKind {
    Up,
    Down,
}

/// One step of the schema: the version that it leads to, what it does in
/// words, and the statements that do it.
#[derive(Debug)]
pub struct Migration {
    pub version: i64,
    pub description: &'static str,
    pub sql: &'static str,
    pub kind: MigrationKind,
}

/// The name under which the database is opened.
pub const DATABASE_URL: &'static str = "sqlite:content-planner.db";

/// What the migration to version 3 does, in words.
pub const INITIAL_DESCRIPTION: &'static str = "initialize the database tables";

/// What the migration to version 4 does, in words.
pub const SETTINGS_DESCRIPTION: &'static str = "initialize the settings table";

/// What the migration to version 5 does, in words.
pub const SETTINGS_UPDATE_DESCRIPTION: &'static str = "update the settings table";

/// Version 3: the tables of videos, subtasks, tags, ideas and settings.
pub const INITIAL_SQL: &'static str = "
DROP TABLE IF EXISTS videos;
DROP TABLE IF EXISTS subtasks;
DROP TABLE IF EXISTS tags;
DROP TABLE IF EXISTS idea_bank;
DROP TABLE IF EXISTS idea_tags;
DROP TABLE IF EXISTS settings;


-- Table: videos
CREATE TABLE videos (
    id TEXT PRIMARY KEY,
    title TEXT NOT NULL,
    description TEXT,
    link TEXT,
    status TEXT NOT NULL CHECK (status IN ('idle', 'scripted', 'recorded', 'edited', 'thumbnail', 'created', 'published')),
    platform TEXT CHECK (platform IN ('youtube', 'tiktok', 'instagram', 'twitch', 'twitter')),
    type TEXT NOT NULL CHECK (type IN ('tutorial', 'vlog', 'review', 'talking', 'stream', 'other')),
    priority TEXT NOT NULL CHECK (priority IN ('low', 'medium', 'high')),
    tags TEXT,
    deadline DATE NOT NULL,
    created_at TIMESTAMP WITH TIME ZONE DEFAULT CURRENT_TIMESTAMP,
    updated_at TIMESTAMP WITH TIME ZONE,
    end_date DATE
);

CREATE TABLE subtasks (
    id TEXT PRIMARY KEY,
    video_id TEXT NOT NULL,
    title TEXT NOT NULL,
    status TEXT NOT NULL CHECK (status IN ('Pending', 'In Progress', 'Completed')),
    created_at TIMESTAMP WITH TIME ZONE DEFAULT CURRENT_TIMESTAMP,
    updated_at TIMESTAMP WITH TIME ZONE,
    FOREIGN KEY (video_id) REFERENCES videos (id) ON DELETE CASCADE
);

CREATE TABLE tags (
    id TEXT PRIMARY KEY,
    name TEXT UNIQUE NOT NULL,
    created_at TIMESTAMP WITH TIME ZONE DEFAULT CURRENT_TIMESTAMP
);

CREATE TABLE idea_bank (
    id TEXT PRIMARY KEY,
    title TEXT NOT NULL,
    description TEXT,
    duration TEXT NOT NULL,
    content_type TEXT NOT NULL,
    target_audience TEXT NOT NULL,
    outline TEXT,
    is_favorite BOOLEAN DEFAULT FALSE,
    created_at TIMESTAMP WITH TIME ZONE DEFAULT CURRENT_TIMESTAMP,
    updated_at TIMESTAMP WITH TIME ZONE

);

CREATE TABLE idea_tags (
    idea_id TEXT NOT NULL,
    tag_id TEXT NOT NULL,
    PRIMARY KEY (idea_id, tag_id),
    FOREIGN KEY (idea_id) REFERENCES idea_bank (id) ON DELETE CASCADE,
    FOREIGN KEY (tag_id) REFERENCES tags (id) ON DELETE CASCADE
);

CREATE TABLE settings (
    key TEXT PRIMARY KEY,
    value TEXT
);
";

/// Version 4: the settings table anew, with a category and a title.
pub const SETTINGS_SQL: &'static str = "
DROP TABLE IF EXISTS settings;

CREATE TABLE settings (
    id TEXT PRIMARY KEY,
    category TEXT NOT NULL,
    title TEXT NOT NULL,
    value TEXT UNIQUE NOT NULL,
    created_at TIMESTAMP WITH TIME ZONE DEFAULT CURRENT_TIMESTAMP
);
";

/// Version 5: the settings table without its title.
pub const SETTINGS_UPDATE_SQL: &'static str = "
ALTER TABLE settings DROP COLUMN title;
";

/// Whether `m` is the forward migration to `version` with the given words
/// and statements.
pub open spec fn is_step(m: Migration, version: int, description: Seq<char>, sql: Seq<char>) -> bool {
    &&& m.version == version
    &&& m.description@ == description
    &&& m.sql@ == sql
    &&& m.kind == MigrationKind::Up
}

/// Whether the versions grow from each migration to the next.
pub open spec fn ascending(steps: Seq<Migration>) -> bool {
    forall|i: int, j: int| 0 <= i < j < steps.len() ==> steps[i].version < steps[j].version
}

/// Whether `steps` is the schema: the three forward migrations to the
/// versions 3, 4 and 5, in that order.
pub open spec fn is_schema(steps: Seq<Migration>) -> bool {
    &&& steps.len() == 3
    &&& is_step(steps[0], 3, INITIAL_DESCRIPTION@, INITIAL_SQL@)
    &&& is_step(steps[1], 4, SETTINGS_DESCRIPTION@, SETTINGS_SQL@)
    &&& is_step(steps[2], 5, SETTINGS_UPDATE_DESCRIPTION@, SETTINGS_UPDATE_SQL@)
}

/// The migrations of the local database, lowest version first.
pub fn migrations() -> (r: Vec<Migration>)
    ensures
        is_schema(r@),
        ascending(r@),
{
    let mut steps: Vec<Migration> = Vec::new();
    steps.push(
        Migration {
            version: 3,
            description: INITIAL_DESCRIPTION,
            sql: INITIAL_SQL,
            kind: MigrationKind::Up,
        },
    );
    steps.push(
        Migration {
            version: 4,
            description: SETTINGS_DESCRIPTION,
            sql: SETTINGS_SQL,
            kind: MigrationKind::Up,
        },
    );
    steps.push(
        Migration {
            version: 5,
            description: SETTINGS_UPDATE_DESCRIPTION,
            sql: SETTINGS_UPDATE_SQL,
            kind: MigrationKind::Up,
        },
    );
    steps
}

} // verus!

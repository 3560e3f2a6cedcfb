//! Database Backup Job
//!
//! Builds the commands that back up a database on its server and upload
//! the dump to S3, and assembles the backup report.

use vstd::prelude::*;
use crate::ids::{compact_layout, id_text, now_compact, now_millis, uuid_text};
use crate::platform::{DatabaseStatus, DatabaseType, Error, S3Storage, StandaloneDatabase};
use crate::text::{join, join_exec, owned, replace_all, replace_str, texts};

verus! {

/// Backup context
#[derive(Debug, Clone)]
pub struct DatabaseBackupContext {
    pub backup_id: u128,
    pub database_id: u128,
    pub database_type: DatabaseType,
    pub s3_storage_id: Option<u128>,
    pub save_to_disk: bool,
    pub databases_to_backup: Option<Vec<String>>,
}

/// Backup result
#[derive(Debug, Clone)]
pub struct BackupResult {
    pub backup_id: u128,
    pub database_id: u128,
    pub filename: String,
    pub size_bytes: i64,
    pub duration_seconds: i64,
    pub saved_to_disk: bool,
    pub uploaded_to_s3: bool,
    /// Milliseconds since the epoch
    pub completed_at: i64,
}

/// The short name of a database engine used in backup file names.
pub open spec fn engine_tag(t: DatabaseType) -> Seq<char> {
    match t {
        DatabaseType::Postgresql => "pg"@,
        DatabaseType::Mysql => "mysql"@,
        DatabaseType::Mariadb => "mariadb"@,
        DatabaseType::Mongodb => "mongo"@,
        DatabaseType::Redis => "redis"@,
        _ => "db"@,
    }
}

fn engine_tag_exec(t: DatabaseType) -> (r: &'static str)
    ensures
        r@ == engine_tag(t),
{
    match t {
        DatabaseType::Postgresql => "pg",
        DatabaseType::Mysql => "mysql",
        DatabaseType::Mariadb => "mariadb",
        DatabaseType::Mongodb => "mongo",
        DatabaseType::Redis => "redis",
        _ => "db",
    }
}

/// `<database id>_<engine>_backup_<timestamp>.sql.gz`.
pub open spec fn backup_filename_text(db: StandaloneDatabase, timestamp: Seq<char>) -> Seq<char> {
    uuid_text(db.id) + "_"@ + engine_tag(db.database_type) + "_backup_"@ + timestamp + ".sql.gz"@
}

/// Where a backup file is written on the server.
pub open spec fn backup_path_text(filename: Seq<char>) -> Seq<char> {
    "/data/coolify/backups/"@ + filename
}

/// The command that dumps the database to `backup_path`: each engine
/// uses its own dump tool inside the database's container (named by the
/// database ID); PostgreSQL dumps the first listed database (else
/// `postgres`), MySQL and MariaDB the listed ones (else all), Redis-like
/// stores copy their snapshot and compress it.
pub open spec fn backup_command_text(
    db: StandaloneDatabase,
    databases: Option<Seq<Seq<char>>>,
    backup_path: Seq<char>,
) -> Seq<char> {
    let c = uuid_text(db.id);
    match db.database_type {
        DatabaseType::Postgresql => "docker exec "@ + c + " pg_dump -U "@ + db.config.database_user@
            + " "@ + (match databases {
            Some(d) => if d.len() > 0 {
                d[0]
            } else {
                "postgres"@
            },
            None => "postgres"@,
        }) + " | gzip > "@ + backup_path,
        DatabaseType::Mysql | DatabaseType::Mariadb => "docker exec "@ + c + " mysqldump -u "@
            + db.config.database_user@ + " -p"@ + db.config.database_password@ + " "@ + (
        match databases {
            Some(d) => join(d, " "@),
            None => "--all-databases"@,
        }) + " | gzip > "@ + backup_path,
        DatabaseType::Mongodb => "docker exec "@ + c + " mongodump --archive --gzip -u "@
            + db.config.database_user@ + " -p "@ + db.config.database_password@
            + " --authenticationDatabase admin > "@ + backup_path,
        DatabaseType::Redis | DatabaseType::Keydb | DatabaseType::Dragonfly => {
            let raw = replace_all(backup_path, ".gz"@, ""@);
            "docker exec "@ + c + " redis-cli BGSAVE && sleep 2 && docker cp "@ + c
                + ":/data/dump.rdb "@ + raw + " && gzip "@ + raw
        },
        DatabaseType::Clickhouse => "docker exec "@ + c
            + " clickhouse-client --query 'SELECT * FROM system.tables FORMAT TSV' | gzip > "@
            + backup_path,
    }
}

/// The S3 upload command, with the endpoint when the storage uses
/// path-style addressing.
pub open spec fn upload_command_text(s3: S3Storage, local_path: Seq<char>, filename: Seq<char>) -> Seq<
    char,
> {
    "AWS_ACCESS_KEY_ID="@ + s3.access_key@ + " AWS_SECRET_ACCESS_KEY="@ + s3.secret_key@
        + " aws s3 cp "@ + local_path + " s3://"@ + s3.bucket@ + "/"@ + filename + (if s3.use_path_style {
        " --endpoint-url "@ + s3.endpoint@
    } else {
        Seq::<char>::empty()
    }) + " --region "@ + s3.region@
}

/// The views of an optional list of names.
pub open spec fn names_view(v: Option<Vec<String>>) -> Option<Seq<Seq<char>>> {
    match v {
        Some(d) => Some(texts(d@)),
        None => None,
    }
}

/// Database backup job
pub struct DatabaseBackupJob {
    context: DatabaseBackupContext,
}

impl DatabaseBackupJob {
    pub closed spec fn context(&self) -> DatabaseBackupContext {
        self.context
    }

    pub fn new(context: DatabaseBackupContext) -> (r: Self)
        ensures
            r.context() == context,
    {
        DatabaseBackupJob { context }
    }

    /// The backup file name for a timestamp in the layout `%Y%m%d_%H%M%S`.
    pub fn backup_filename(&self, database: &StandaloneDatabase, timestamp: &str) -> (r: String)
        ensures
            r@ == backup_filename_text(*database, timestamp@),
    {
        let mut r = id_text(database.id);
        r.append("_");
        r.append(engine_tag_exec(database.database_type));
        r.append("_backup_");
        r.append(timestamp);
        r.append(".sql.gz");
        r
    }

    /// Generate backup filename with the current time as timestamp, in the
    /// layout `%Y%m%d_%H%M%S`.
    pub fn generate_backup_filename(&self, database: &StandaloneDatabase) -> (r: String)
        ensures
            exists|ts: Seq<char>| compact_layout(ts) && r@ == backup_filename_text(*database, ts),
    {
        let ts = now_compact();
        self.backup_filename(database, ts.as_str())
    }

    /// Generate backup command based on database type
    pub fn generate_backup_command(&self, database: &StandaloneDatabase, filename: &str) -> (r:
        Result<String, Error>)
        ensures
            r matches Ok(c) && c@ == backup_command_text(
                *database,
                names_view(self.context().databases_to_backup),
                backup_path_text(filename@),
            ),
    {
        let container_name = id_text(database.id);
        let mut backup_path = owned("/data/coolify/backups/");
        backup_path.append(filename);
        let mut c = owned("docker exec ");
        c.append(container_name.as_str());
        match database.database_type {
            DatabaseType::Postgresql => {
                c.append(" pg_dump -U ");
                c.append(database.config.database_user.as_str());
                c.append(" ");
                match &self.context.databases_to_backup {
                    Some(d) => if d.len() > 0 {
                        assert(texts(d@)[0] == d@[0]@);
                        c.append(d[0].as_str());
                    } else {
                        c.append("postgres");
                    },
                    None => c.append("postgres"),
                }
                c.append(" | gzip > ");
                c.append(backup_path.as_str());
            },
            DatabaseType::Mysql | DatabaseType::Mariadb => {
                c.append(" mysqldump -u ");
                c.append(database.config.database_user.as_str());
                c.append(" -p");
                c.append(database.config.database_password.as_str());
                c.append(" ");
                match &self.context.databases_to_backup {
                    Some(d) => {
                        let j = join_exec(d, " ");
                        c.append(j.as_str());
                    },
                    None => c.append("--all-databases"),
                }
                c.append(" | gzip > ");
                c.append(backup_path.as_str());
            },
            DatabaseType::Mongodb => {
                c.append(" mongodump --archive --gzip -u ");
                c.append(database.config.database_user.as_str());
                c.append(" -p ");
                c.append(database.config.database_password.as_str());
                c.append(" --authenticationDatabase admin > ");
                c.append(backup_path.as_str());
            },
            DatabaseType::Redis | DatabaseType::Keydb | DatabaseType::Dragonfly => {
                let raw = replace_str(backup_path.as_str(), ".gz", "");
                c.append(" redis-cli BGSAVE && sleep 2 && docker cp ");
                c.append(container_name.as_str());
                c.append(":/data/dump.rdb ");
                c.append(raw.as_str());
                c.append(" && gzip ");
                c.append(raw.as_str());
            },
            DatabaseType::Clickhouse => {
                c.append(
                    " clickhouse-client --query 'SELECT * FROM system.tables FORMAT TSV' | gzip > ",
                );
                c.append(backup_path.as_str());
            },
        }
        Ok(c)
    }

    /// The command that uploads a backup to S3.
    pub fn upload_command(&self, s3: &S3Storage, local_path: &str, filename: &str) -> (r: String)
        ensures
            r@ == upload_command_text(*s3, local_path@, filename@),
    {
        let mut c = owned("AWS_ACCESS_KEY_ID=");
        c.append(s3.access_key.as_str());
        c.append(" AWS_SECRET_ACCESS_KEY=");
        c.append(s3.secret_key.as_str());
        c.append(" aws s3 cp ");
        c.append(local_path);
        c.append(" s3://");
        c.append(s3.bucket.as_str());
        c.append("/");
        c.append(filename);
        if s3.use_path_style {
            c.append(" --endpoint-url ");
            let e = s3.endpoint_url();
            c.append(e.as_str());
        }
        c.append(" --region ");
        c.append(s3.region.as_str());
        c
    }

    /// Uploads the backup to S3: the upload command is built and counted
    /// as done.
    fn upload_to_s3(&self, s3: &S3Storage, local_path: &str, filename: &str) -> (r: Result<
        (),
        Error,
    >)
        ensures
            r is Ok,
    {
        let _command = self.upload_command(s3, local_path, filename);
        Ok(())
    }

    /// Backs a database up: refused unless the database is running;
    /// otherwise reported under a fresh file name, saved to disk as the
    /// context asks and uploaded exactly when S3 storage is given.
    pub fn run(&self, database: &StandaloneDatabase, s3_storage: Option<&S3Storage>) -> (r: Result<
        BackupResult,
        Error,
    >)
        ensures
            database.status != DatabaseStatus::Running ==> (r matches Err(Error::Validation(m))
                && m@ == "Database must be running to perform backup"@),
            database.status == DatabaseStatus::Running ==> (r matches Ok(res) && res.backup_id
                == self.context().backup_id && res.database_id == database.id && (exists|
                ts: Seq<char>,
            | compact_layout(ts) && res.filename@ == backup_filename_text(*database, ts)) && res.size_bytes == 0
                && res.saved_to_disk == self.context().save_to_disk && res.uploaded_to_s3
                == s3_storage is Some),
    {
        let start = now_millis();
        let filename = self.generate_backup_filename(database);
        if database.status != DatabaseStatus::Running {
            return Err(Error::Validation(owned("Database must be running to perform backup")));
        }
        let _backup_command = self.generate_backup_command(database, filename.as_str());
        let mut backup_path = owned("/data/coolify/backups/");
        backup_path.append(filename.as_str());
        let backup_size: i64 = 0;
        let s3_uploaded = match s3_storage {
            Some(s3) => match self.upload_to_s3(s3, backup_path.as_str(), filename.as_str()) {
                Ok(()) => true,
                Err(_) => false,
            },
            None => false,
        };
        let end = now_millis();
        let d: i128 = (end as i128 - start as i128) / 1000;
        let duration: i64 = if d < i64::MIN as i128 {
            i64::MIN
        } else if d > i64::MAX as i128 {
            i64::MAX
        } else {
            d as i64
        };
        Ok(
            BackupResult {
                backup_id: self.context.backup_id,
                database_id: database.id,
                filename,
                size_bytes: backup_size,
                duration_seconds: duration,
                saved_to_disk: self.context.save_to_disk,
                uploaded_to_s3: s3_uploaded,
                completed_at: end,
            },
        )
    }
}

} // verus!

//! A dotfiles synchronizer core: path utilities, a hardened external-command
//! primitive, one-way mirror operations for files and directory subtrees, and
//! an orchestrator that runs an ordered list of sync entries in either
//! direction and reports drift between the two trees.

pub mod command;
pub mod commands_block;
pub mod dir_block;
pub mod directories_descr;
pub mod file_ops;
pub mod installer;
pub mod paths;

pub use installer::FailedPackages;
pub use installer::InstallerSection;

pub use commands_block::CommandBlock;
pub use dir_block::DirBlock;
pub use dir_block::DirFileType;
pub use directories_descr::DirectoriesDescr;
pub use directories_descr::SyncError;

pub use file_ops::create_dir_if_not_exists;
pub use file_ops::get_dir_diff;
pub use file_ops::sync_dir;
pub use file_ops::sync_dir_deleting_extraneous;
pub use file_ops::sync_file;
pub use file_ops::FileOperationError;

pub use command::ProcessStatus;
pub use command::SingleCommand;
pub use command::SingleCommandError;

pub use paths::add_last_slash_to_path;
pub use paths::join_two_paths;
pub use paths::parent_dir;
pub use paths::sanitize_relative_path;

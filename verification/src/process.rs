pub mod isoproc;
pub mod netns;
pub mod paths;

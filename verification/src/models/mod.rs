pub mod contributions;
pub mod github_dto;
pub mod malee;

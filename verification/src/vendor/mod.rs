/// The calendar vendor's schemas, as the registrar uses them.
pub mod google;

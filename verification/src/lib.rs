pub mod my_object;
pub mod qcolor;
pub mod qpointf;
pub mod qsizef;
pub mod qstring;
pub mod qt_types;
pub mod qvariant;

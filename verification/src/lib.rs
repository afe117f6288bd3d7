//! Hierarchy assembly and cross-reference resolution for a game world that is
//! described by loosely typed key-value documents.
//!
//! The library reads the files of the game into a normalised model: the
//! hierarchy of super-regions, regions, areas and provinces, the countries
//! with their histories and names, the governments with their reforms, and
//! the meaning of the modifiers. Every function is stated over a
//! mathematical model of its data and proved against it.
//!
//! The modules, leaves first:
//!
//! - `text`: characters, numerals, lines and trimming;
//! - `sorting`: the order of texts and the sorts that rest on it;
//! - `tags`, `table`, `lexicon`: a set of strings, a table from strings to
//!   values, and the localisation table;
//! - `document`: the generic document tree and its accessors;
//! - `tape`, `tree`: the token tape of the outside parser, and the tree that
//!   is built from it;
//! - `scanner`: the recursive pattern scanner;
//! - `pool`, `map`, `identity`, `membership`: pools and claims, the
//!   hierarchy assembler, identity by identifier, and what holds of every
//!   assembled hierarchy;
//! - `continents`: provinces by continent;
//! - `amount`, `modifier_table`, `modifiers`: exact decimal amounts, the
//!   modifier semantics table, and the rendering of modifier values;
//! - `ideas`, `countries`: idea sets, and the entity enricher for countries;
//! - `localisation`: localisation files and colour codes;
//! - `missions`, `governments`, `greatprojects`, `events`, `graphics`: the
//!   other families of game files;
//! - `utils`: the wording and the markup of conditions, and changed files;
//! - `imagemagick`, `wiki`: the plans and decisions around the outside
//!   programs and the wiki;
//! - `pages`: the text of the wiki pages.
pub mod text;
pub mod sorting;
pub mod tags;
pub mod table;
pub mod lexicon;
pub mod document;
pub mod tape;
pub mod tree;
pub mod scanner;
pub mod pool;
pub mod map;
pub mod identity;
pub mod membership;
pub mod continents;
pub mod amount;
pub mod modifier_table;
pub mod modifiers;
pub mod ideas;
pub mod countries;
pub mod localisation;
pub mod missions;
pub mod governments;
pub mod greatprojects;
pub mod events;
pub mod graphics;
pub mod utils;
pub mod imagemagick;
pub mod wiki;
pub mod pages;

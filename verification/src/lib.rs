mod app;
mod geom;
mod gesture;
mod image;
mod img_manip;

pub use app::ClipboardError;
pub use app::EcutApp;
pub use app::UiState;
pub use geom::SrcPos;
pub use geom::SrcRect;
pub use gesture::candidate_rect;
pub use gesture::candidate_rect_spec;
pub use gesture::lemma_press_after_release_starts_fresh;
pub use gesture::lemma_release_clears_origin;
pub use gesture::next_cut_rect;
pub use gesture::next_origin;
pub use image::CropError;
pub use image::ImageBundle;
pub use image::ImgData;
pub use image::next_gen;
pub use img_manip::copy_pixels;
pub use img_manip::crop_image_data;
pub use img_manip::cropped_bytes;
pub use img_manip::index_img;
pub use img_manip::lemma_crop_degenerate_is_empty;
pub use img_manip::lemma_crop_full_is_identity;
pub use img_manip::lemma_cropped_byte;

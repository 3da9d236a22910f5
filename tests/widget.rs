use xenon::lcd::LcdBuffer;
use xenon::text::{Config, GlyphData, WrapMode};
use xenon::bitmap::Bitmap;
use xenon::widget::{Container, TypedContainer, Widget};

struct Dot(i32, i32);

impl Widget for Dot {
    fn render(&self, buffer: &mut LcdBuffer) {
        buffer.set_pixel(self.0, self.1, false);
    }
}

#[test]
fn containers_render_in_order() {
    let typed = TypedContainer::new().with_widget(Dot(0, 0)).with_widget(Dot(8, 1));
    assert_eq!(typed.0.len(), 2);
    let mut buffer = LcdBuffer::new();
    typed.render(&mut buffer);
    assert_eq!(buffer.get_line(0)[0], 0xfe);
    assert_eq!(buffer.get_line(1)[1], 0xfe);
    let dynamic = Container::new().with_widget(Dot(1, 2)).with_widget(typed);
    assert_eq!(dynamic.0.len(), 2);
    let mut other = LcdBuffer::new();
    dynamic.render(&mut other);
    assert_eq!(other.get_line(2)[0], 0xfd);
}

#[test]
fn glyph_dimensions_come_from_white_bitmap() {
    let black = Bitmap::new(4, 1, &[0]).unwrap();
    let white = Bitmap::new(6, 2, &[0; 4]).unwrap();
    let glyph = GlyphData::new(1, 7, 0, black, white);
    assert_eq!((glyph.width(), glyph.height()), (6, 2));
    assert_eq!(Config::default().wrap_mode, WrapMode::Both);
}

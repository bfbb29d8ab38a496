# reconstructor

Núcleo verificado (Verus) de un reconstructor OCR de documentos escaneados:
orientación, detección de layout, OCR de texto y tablas, y composición de
PDF, TXT y JSON.

- `src/`: la biblioteca verificada. Autómatas de documento, página y bloque
  con sus leyes; evaluación de confianza; resolución de cada bloque
  (estrategia, reintento y recorte raster) con la traza de transiciones;
  estados que se anuncian por página; métricas exactas (CER, tasa de
  fallback); y la lógica de los adaptadores: segmentación de líneas,
  decodificación CTC, supresión de no máximos, interpretación de la
  estructura de tablas, manifiesto de modelos y huellas SHA-256, rutas y
  contenido de las salidas, ingesta de imágenes.
- `tests/`: pruebas de la biblioteca sobre valores concretos.
- `app/`: lo que rodea a la biblioteca: E/S de archivos y red, inferencia
  ONNX, rasterización con pdfium, composición con printpdf, concurrencia con
  rayon y la geometría en coma flotante.

Las confianzas y umbrales se expresan en millonésimas (`1_000_000` = 1,0).
